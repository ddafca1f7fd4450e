//! Codec for the persisted session file.
//!
//! A bundle is written as one JSON object with the fields `homeserver`,
//! `db_path`, `db_passphrase`, `session` and, when a sync cursor exists,
//! `sync_token`, in that order and without extra whitespace. Every field is a
//! JSON string; `"` and `\` are escaped with a backslash, and no field may
//! hold a raw control character (see [`crate::data::text_ok`]). The decoder
//! reads exactly this canonical form; any other file content counts as
//! corrupt.

use vstd::prelude::*;

use crate::data::text_ok;
use crate::data::BundleModel;
use crate::data::SessionBundle;

verus! {

/// How one character stands inside a JSON string.
pub open spec fn escape_char(c: char) -> Seq<char> {
    if c == '"' {
        seq!['\\', '"']
    } else if c == '\\' {
        seq!['\\', '\\']
    } else {
        seq![c]
    }
}

/// How a whole field stands inside a JSON string.
pub open spec fn escape_text(s: Seq<char>) -> Seq<char>
    decreases s.len(),
{
    if s.len() == 0 {
        Seq::empty()
    } else {
        escape_char(s[0]) + escape_text(s.skip(1))
    }
}

proof fn lemma_escape_push(s: Seq<char>, c: char)
    ensures
        escape_text(s.push(c)) == escape_text(s) + escape_char(c),
    decreases s.len(),
{
    if s.len() == 0 {
        assert(s.push(c)[0] == c);
        assert(s.push(c).skip(1) =~= Seq::<char>::empty());
        assert(escape_text(s.push(c)) == escape_char(c) + escape_text(s.push(c).skip(1)));
        assert(escape_text(s.push(c).skip(1)) == Seq::<char>::empty());
        assert(escape_text(s) == Seq::<char>::empty());
        assert(escape_char(c) + Seq::<char>::empty() =~= Seq::<char>::empty() + escape_char(c));
    } else {
        assert(s.push(c)[0] == s[0]);
        assert(s.push(c).skip(1) =~= s.skip(1).push(c));
        lemma_escape_push(s.skip(1), c);
        assert(escape_char(s.push(c)[0]) + (escape_text(s.skip(1)) + escape_char(c)) =~= (
        escape_char(s[0]) + escape_text(s.skip(1))) + escape_char(c));
    }
}

/// Reads the body of a JSON string up to and including its closing quote.
/// Returns the unescaped content and what follows the closing quote, or
/// nothing if no well-formed string body starts here.
pub open spec fn parse_text(s: Seq<char>) -> Option<(Seq<char>, Seq<char>)>
    decreases s.len(),
{
    if s.len() == 0 {
        None
    } else if s[0] == '"' {
        Some((Seq::empty(), s.skip(1)))
    } else if s[0] == '\\' {
        if s.len() >= 2 && (s[1] == '"' || s[1] == '\\') {
            match parse_text(s.skip(2)) {
                Some(p) => Some((seq![s[1]] + p.0, p.1)),
                None => None,
            }
        } else {
            None
        }
    } else if !(s[0] >= ' ') {
        None
    } else {
        match parse_text(s.skip(1)) {
            Some(p) => Some((seq![s[0]] + p.0, p.1)),
            None => None,
        }
    }
}

/// Unescaping undoes escaping: the escaped text of a field, followed by the
/// closing quote, parses back to the field itself.
pub proof fn lemma_parse_escaped(s: Seq<char>, rest: Seq<char>)
    requires
        text_ok(s),
    ensures
        parse_text(escape_text(s) + seq!['"'] + rest) == Some((s, rest)),
    decreases s.len(),
{
    let t = escape_text(s) + seq!['"'] + rest;
    if s.len() == 0 {
        assert(t =~= seq!['"'] + rest);
        assert(t[0] == '"');
        assert(t.skip(1) =~= rest);
    } else {
        let c = s[0];
        let s1 = s.skip(1);
        assert forall|i: int| 0 <= i < s1.len() implies s1[i] >= ' ' by {
            assert(s1[i] == s[i + 1]);
        }
        lemma_parse_escaped(s1, rest);
        let t1 = escape_text(s1) + seq!['"'] + rest;
        if c == '"' {
            assert(t =~= seq!['\\', '"'] + t1);
            assert(t[0] == '\\' && t[1] == '"');
            assert(t.skip(2) =~= t1);
            assert(seq!['"'] + s1 =~= s);
        } else if c == '\\' {
            assert(t =~= seq!['\\', '\\'] + t1);
            assert(t[0] == '\\' && t[1] == '\\');
            assert(t.skip(2) =~= t1);
            assert(seq!['\\'] + s1 =~= s);
        } else {
            assert(t =~= seq![c] + t1);
            assert(t[0] == c);
            assert(t.skip(1) =~= t1);
            assert(seq![c] + s1 =~= s);
        }
    }
}

/// Consumes a fixed piece of text from the front of `s`.
pub open spec fn take_lit(s: Seq<char>, lit: Seq<char>) -> Option<Seq<char>> {
    if lit.len() <= s.len() && s.take(lit.len() as int) == lit {
        Some(s.skip(lit.len() as int))
    } else {
        None
    }
}

pub proof fn lemma_take_lit(lit: Seq<char>, rest: Seq<char>)
    ensures
        take_lit(lit + rest, lit) == Some(rest),
{
    assert((lit + rest).take(lit.len() as int) =~= lit);
    assert((lit + rest).skip(lit.len() as int) =~= rest);
}

pub open spec fn lit_open() -> Seq<char> {
    "{\"homeserver\":\""@
}

pub open spec fn lit_db_path() -> Seq<char> {
    ",\"db_path\":\""@
}

pub open spec fn lit_db_passphrase() -> Seq<char> {
    ",\"db_passphrase\":\""@
}

pub open spec fn lit_session() -> Seq<char> {
    ",\"session\":\""@
}

pub open spec fn lit_sync_token() -> Seq<char> {
    ",\"sync_token\":\""@
}

pub open spec fn lit_close() -> Seq<char> {
    "}"@
}

/// A field as it stands in the file: escaped content, then the closing quote.
pub open spec fn enc_str(s: Seq<char>) -> Seq<char> {
    escape_text(s) + seq!['"']
}

/// The exact text of the session file for a given bundle.
pub open spec fn spec_encode(m: BundleModel) -> Seq<char> {
    lit_open() + enc_str(m.homeserver) + lit_db_path() + enc_str(m.db_path)
        + lit_db_passphrase() + enc_str(m.db_passphrase) + lit_session() + enc_str(m.session)
        + (match m.sync_token {
        Some(t) => lit_sync_token() + enc_str(t) + lit_close(),
        None => lit_close(),
    })
}

pub open spec fn accept(m: BundleModel) -> Option<BundleModel> {
    if m.valid() {
        Some(m)
    } else {
        None
    }
}

pub open spec fn spec_decode_tail(
    hs: Seq<char>,
    dp: Seq<char>,
    pp: Seq<char>,
    ss: Seq<char>,
    s: Seq<char>,
) -> Option<BundleModel> {
    match take_lit(s, lit_sync_token()) {
        Some(s1) => match parse_text(s1) {
            Some(p) => match take_lit(p.1, lit_close()) {
                Some(s2) => if s2.len() == 0 {
                    accept(
                        BundleModel {
                            homeserver: hs,
                            db_path: dp,
                            db_passphrase: pp,
                            session: ss,
                            sync_token: Some(p.0),
                        },
                    )
                } else {
                    None
                },
                None => None,
            },
            None => None,
        },
        None => match take_lit(s, lit_close()) {
            Some(s1) => if s1.len() == 0 {
                accept(
                    BundleModel {
                        homeserver: hs,
                        db_path: dp,
                        db_passphrase: pp,
                        session: ss,
                        sync_token: None,
                    },
                )
            } else {
                None
            },
            None => None,
        },
    }
}

/// What a session file means: the bundle it denotes, or nothing if the file
/// is not the canonical encoding of a valid bundle.
pub open spec fn spec_decode(s: Seq<char>) -> Option<BundleModel> {
    match take_lit(s, lit_open()) {
        Some(s1) => match parse_text(s1) {
            Some(p1) => match take_lit(p1.1, lit_db_path()) {
                Some(s2) => match parse_text(s2) {
                    Some(p2) => match take_lit(p2.1, lit_db_passphrase()) {
                        Some(s3) => match parse_text(s3) {
                            Some(p3) => match take_lit(p3.1, lit_session()) {
                                Some(s4) => match parse_text(s4) {
                                    Some(p4) => spec_decode_tail(p1.0, p2.0, p3.0, p4.0, p4.1),
                                    None => None,
                                },
                                None => None,
                            },
                            None => None,
                        },
                        None => None,
                    },
                    None => None,
                },
                None => None,
            },
            None => None,
        },
        None => None,
    }
}

/// Decoding undoes encoding: every valid bundle comes back unchanged from its
/// own session file.
pub proof fn lemma_decode_encode(m: BundleModel)
    requires
        m.valid(),
    ensures
        spec_decode(spec_encode(m)) == Some(m),
{
    let tail = match m.sync_token {
        Some(t) => lit_sync_token() + enc_str(t) + lit_close(),
        None => lit_close(),
    };
    let p4 = enc_str(m.session) + tail;
    let r4 = lit_session() + p4;
    let p3 = enc_str(m.db_passphrase) + r4;
    let r3 = lit_db_passphrase() + p3;
    let p2 = enc_str(m.db_path) + r3;
    let r2 = lit_db_path() + p2;
    let p1 = enc_str(m.homeserver) + r2;
    assert(spec_encode(m) =~= lit_open() + p1);
    lemma_take_lit(lit_open(), p1);
    assert(p1 =~= escape_text(m.homeserver) + seq!['"'] + r2);
    lemma_parse_escaped(m.homeserver, r2);
    lemma_take_lit(lit_db_path(), p2);
    assert(p2 =~= escape_text(m.db_path) + seq!['"'] + r3);
    lemma_parse_escaped(m.db_path, r3);
    lemma_take_lit(lit_db_passphrase(), p3);
    assert(p3 =~= escape_text(m.db_passphrase) + seq!['"'] + r4);
    lemma_parse_escaped(m.db_passphrase, r4);
    lemma_take_lit(lit_session(), p4);
    assert(p4 =~= escape_text(m.session) + seq!['"'] + tail);
    lemma_parse_escaped(m.session, tail);
    match m.sync_token {
        Some(t) => {
            let after = enc_str(t) + lit_close();
            assert(tail =~= lit_sync_token() + after);
            lemma_take_lit(lit_sync_token(), after);
            assert(after =~= escape_text(t) + seq!['"'] + lit_close());
            lemma_parse_escaped(t, lit_close());
            lemma_take_lit(lit_close(), Seq::empty());
            assert(lit_close() + Seq::<char>::empty() =~= lit_close());
        },
        None => {
            reveal_strlit("}");
            reveal_strlit(",\"sync_token\":\"");
            assert(lit_close().len() == 1);
            assert(lit_sync_token().len() == 15);
            assert(take_lit(tail, lit_sync_token()) is None);
            lemma_take_lit(lit_close(), Seq::empty());
            assert(lit_close() + Seq::<char>::empty() =~= lit_close());
        },
    }
}

/// Relies on String::push: appends one character at the end of the string.
#[verifier::external_body]
pub(crate) fn push_char(s: &mut String, c: char)
    ensures
        final(s)@ == old(s)@ + seq![c],
{
    s.push(c);
}

fn append_escaped(out: &mut String, field: &str)
    ensures
        final(out)@ == old(out)@ + escape_text(field@),
{
    let n = field.unicode_len();
    let mut i: usize = 0;
    while i < n
        invariant
            i <= n,
            n == field@.len(),
            out@ == old(out)@ + escape_text(field@.take(i as int)),
        decreases n - i,
    {
        let c = field.get_char(i);
        proof {
            assert(field@.take(i as int).push(c) =~= field@.take(i as int + 1));
            lemma_escape_push(field@.take(i as int), c);
        }
        if c == '"' {
            out.append("\\\"");
            proof {
                reveal_strlit("\\\"");
                assert("\\\""@ =~= escape_char(c));
            }
        } else if c == '\\' {
            out.append("\\\\");
            proof {
                reveal_strlit("\\\\");
                assert("\\\\"@ =~= escape_char(c));
            }
        } else {
            push_char(out, c);
        }
        i = i + 1;
    }
    proof {
        assert(field@.take(n as int) =~= field@);
    }
}

/// Writes the session file text for `b`: the canonical JSON object described
/// at the top of this module.
pub fn encode_bundle(b: &SessionBundle) -> (r: String)
    ensures
        r@ == spec_encode(b@),
{
    let mut out = String::new();
    out.append("{\"homeserver\":\"");
    append_escaped(&mut out, b.homeserver.as_str());
    out.append("\"");
    out.append(",\"db_path\":\"");
    append_escaped(&mut out, b.db_path.as_str());
    out.append("\"");
    out.append(",\"db_passphrase\":\"");
    append_escaped(&mut out, b.db_passphrase.as_str());
    out.append("\"");
    out.append(",\"session\":\"");
    append_escaped(&mut out, b.session.as_str());
    out.append("\"");
    match &b.sync_token {
        Some(t) => {
            out.append(",\"sync_token\":\"");
            append_escaped(&mut out, t.as_str());
            out.append("\"");
            out.append("}");
        },
        None => {
            out.append("}");
        },
    }
    proof {
        reveal_strlit("\"");
        assert("\""@ =~= seq!['"']);
        assert(out@ =~= spec_encode(b@));
    }
    out
}

fn eat_lit(s: &str, i: usize, lit: &str) -> (r: Option<usize>)
    requires
        i <= s@.len(),
    ensures
        match r {
            Some(j) => i <= j <= s@.len() && take_lit(s@.skip(i as int), lit@) == Some(
                s@.skip(j as int),
            ),
            None => take_lit(s@.skip(i as int), lit@) is None,
        },
{
    let n = s.unicode_len();
    let m = lit.unicode_len();
    if m > n - i {
        return None;
    }
    let mut k: usize = 0;
    while k < m
        invariant
            i + m <= n,
            k <= m,
            n == s@.len(),
            m == lit@.len(),
            forall|q: int| 0 <= q < k ==> s@[i + q] == lit@[q],
        decreases m - k,
    {
        if s.get_char(i + k) != lit.get_char(k) {
            proof {
                assert(s@.skip(i as int).take(m as int)[k as int] == s@[i + k]);
                assert(s@.skip(i as int).take(m as int) != lit@);
            }
            return None;
        }
        k = k + 1;
    }
    proof {
        assert(s@.skip(i as int).take(m as int) =~= lit@);
        assert(s@.skip(i as int).skip(m as int) =~= s@.skip(i + m));
    }
    Some(i + m)
}

fn eat_text(s: &str, start: usize) -> (r: Option<(String, usize)>)
    requires
        start <= s@.len(),
    ensures
        match r {
            Some(p) => start <= p.1 <= s@.len() && parse_text(s@.skip(start as int)) == Some(
                (p.0@, s@.skip(p.1 as int)),
            ),
            None => parse_text(s@.skip(start as int)) is None,
        },
{
    let n = s.unicode_len();
    let mut i: usize = start;
    let mut acc = String::new();
    loop
        invariant
            start <= i <= n,
            n == s@.len(),
            match parse_text(s@.skip(i as int)) {
                Some(p) => parse_text(s@.skip(start as int)) == Some((acc@ + p.0, p.1)),
                None => parse_text(s@.skip(start as int)) is None,
            },
        decreases n - i,
    {
        if i == n {
            proof {
                assert(s@.skip(i as int).len() == 0);
            }
            return None;
        }
        let c = s.get_char(i);
        proof {
            assert(s@.skip(i as int)[0] == s@[i as int]);
        }
        if c == '"' {
            proof {
                assert(s@.skip(i as int).skip(1) =~= s@.skip(i as int + 1));
                assert(acc@ + Seq::<char>::empty() =~= acc@);
            }
            return Some((acc, i + 1));
        } else if c == '\\' {
            if i + 1 == n {
                proof {
                    assert(s@.skip(i as int).len() < 2);
                }
                return None;
            }
            let d = s.get_char(i + 1);
            proof {
                assert(s@.skip(i as int)[1] == s@[i as int + 1]);
            }
            if d == '"' || d == '\\' {
                let ghost acc_old = acc@;
                push_char(&mut acc, d);
                proof {
                    assert(s@.skip(i as int).skip(2) =~= s@.skip(i as int + 2));
                    match parse_text(s@.skip(i as int + 2)) {
                        Some(p) => {
                            assert((acc_old + seq![d]) + p.0 =~= acc_old + (seq![d] + p.0));
                        },
                        None => {},
                    }
                }
                i = i + 2;
            } else {
                return None;
            }
        } else if !(c >= ' ') {
            return None;
        } else {
            let ghost acc_old = acc@;
            push_char(&mut acc, c);
            proof {
                assert(s@.skip(i as int).skip(1) =~= s@.skip(i as int + 1));
                match parse_text(s@.skip(i as int + 1)) {
                    Some(p) => {
                        assert((acc_old + seq![c]) + p.0 =~= acc_old + (seq![c] + p.0));
                    },
                    None => {},
                }
            }
            i = i + 1;
        }
    }
}

/// Reads a session file back into a bundle. Returns nothing when the text is
/// not the canonical encoding of a valid bundle.
pub fn decode_bundle(s: &str) -> (r: Option<SessionBundle>)
    ensures
        match spec_decode(s@) {
            Some(m) => match r {
                Some(b) => b@ == m,
                None => false,
            },
            None => r is None,
        },
{
    proof {
        assert(s@.skip(0) =~= s@);
    }
    let n = s.unicode_len();
    let i1 = match eat_lit(s, 0, "{\"homeserver\":\"") {
        Some(j) => j,
        None => {
            return None;
        },
    };
    let (hs, i2) = match eat_text(s, i1) {
        Some(p) => p,
        None => {
            return None;
        },
    };
    let i3 = match eat_lit(s, i2, ",\"db_path\":\"") {
        Some(j) => j,
        None => {
            return None;
        },
    };
    let (dp, i4) = match eat_text(s, i3) {
        Some(p) => p,
        None => {
            return None;
        },
    };
    let i5 = match eat_lit(s, i4, ",\"db_passphrase\":\"") {
        Some(j) => j,
        None => {
            return None;
        },
    };
    let (pp, i6) = match eat_text(s, i5) {
        Some(p) => p,
        None => {
            return None;
        },
    };
    let i7 = match eat_lit(s, i6, ",\"session\":\"") {
        Some(j) => j,
        None => {
            return None;
        },
    };
    let (ss, i8) = match eat_text(s, i7) {
        Some(p) => p,
        None => {
            return None;
        },
    };
    match eat_lit(s, i8, ",\"sync_token\":\"") {
        Some(i9) => {
            let (tk, i10) = match eat_text(s, i9) {
                Some(p) => p,
                None => {
                    return None;
                },
            };
            let i11 = match eat_lit(s, i10, "}") {
                Some(j) => j,
                None => {
                    return None;
                },
            };
            if i11 != n {
                return None;
            }
            let b = SessionBundle {
                homeserver: hs,
                db_path: dp,
                db_passphrase: pp,
                session: ss,
                sync_token: Some(tk),
            };
            if b.is_valid() {
                Some(b)
            } else {
                None
            }
        },
        None => {
            let i9 = match eat_lit(s, i8, "}") {
                Some(j) => j,
                None => {
                    return None;
                },
            };
            if i9 != n {
                return None;
            }
            let b = SessionBundle {
                homeserver: hs,
                db_path: dp,
                db_passphrase: pp,
                session: ss,
                sync_token: None,
            };
            if b.is_valid() {
                Some(b)
            } else {
                None
            }
        },
    }
}

} // verus!
