//! The claims carried by a signed token, and their text form.
//!
//! Claims are written as one JSON object with the fields in a fixed order
//! and no spaces. Reading accepts exactly that form, so a token's payload
//! reads back as the claims that were written into it.

use vstd::prelude::*;
use crate::auth::{LoginType, TokenKind};
use crate::ids::{UserId, user_id_shape, has_user_id_shape};
use crate::json::{
    decimal, lemma_num_at_decimal, lemma_str_at_quoted, num_at, quoted, read_str, read_u64, str_at,
    write_quoted, write_u64,
};
use crate::text::{chars_of, string_of};

verus! {

/// The unsigned payload of a token.
#[derive(Clone, Debug, PartialEq, Eq)]
pub struct Claims {
    pub kind: TokenKind,
    /// The server that issued the token.
    pub iss: String,
    /// Issued at, in seconds since the Unix epoch.
    pub iat: u64,
    /// Expiry, in seconds since the Unix epoch.
    pub exp: u64,
    /// Unique id of an auth token.
    pub jti: Option<u32>,
    pub sub: UserId,
    pub device_id: String,
    /// The stages a session token has completed.
    pub complete: Option<Vec<LoginType>>,
}

/// The mathematical value of [`Claims`].
pub struct ClaimsView {
    pub kind: TokenKind,
    pub iss: Seq<char>,
    pub iat: u64,
    pub exp: u64,
    pub jti: Option<u32>,
    pub sub: Seq<char>,
    pub device_id: Seq<char>,
    pub complete: Option<Seq<LoginType>>,
}

impl View for Claims {
    type V = ClaimsView;

    open spec fn view(&self) -> ClaimsView {
        ClaimsView {
            kind: self.kind,
            iss: self.iss@,
            iat: self.iat,
            exp: self.exp,
            jti: self.jti,
            sub: self.sub@,
            device_id: self.device_id@,
            complete: match self.complete {
                Some(v) => Some(v@),
                None => None,
            },
        }
    }
}

pub open spec fn kind_text(k: TokenKind) -> Seq<char> {
    match k {
        TokenKind::Auth => "{\"kind\":\"auth\""@,
        TokenKind::Session => "{\"kind\":\"session\""@,
    }
}

pub open spec fn stage_text(t: LoginType) -> Seq<char> {
    match t {
        LoginType::Password => "\"m.login.password\""@,
        LoginType::Token => "\"m.login.token\""@,
    }
}

/// The stages after the first, each preceded by a comma, then `]`.
pub open spec fn stages_tail_text(v: Seq<LoginType>) -> Seq<char>
    decreases v.len(),
{
    if v.len() == 0 {
        "]"@
    } else {
        ","@ + (stage_text(v[0]) + stages_tail_text(v.drop_first()))
    }
}

/// A list of stages as a JSON array.
pub open spec fn stages_text(v: Seq<LoginType>) -> Seq<char> {
    if v.len() == 0 {
        "[]"@
    } else {
        "["@ + (stage_text(v[0]) + stages_tail_text(v.drop_first()))
    }
}

pub open spec fn jti_text(j: Option<u32>) -> Seq<char> {
    match j {
        Some(n) => ",\"jti\":"@ + decimal(n as nat),
        None => Seq::empty(),
    }
}

pub open spec fn complete_text(c: Option<Seq<LoginType>>) -> Seq<char> {
    match c {
        Some(v) => ",\"complete\":"@ + stages_text(v),
        None => Seq::empty(),
    }
}

/// The text form of claims.
pub open spec fn claims_text(c: ClaimsView) -> Seq<char> {
    kind_text(c.kind) + ",\"iss\":"@ + quoted(c.iss) + ",\"iat\":"@ + decimal(c.iat as nat)
        + ",\"exp\":"@ + decimal(c.exp as nat) + jti_text(c.jti) + ",\"sub\":"@ + quoted(c.sub)
        + ",\"device_id\":"@ + quoted(c.device_id) + complete_text(c.complete) + "}"@
}

/// Whether the literal `l` stands at position `i` of `s`.
pub open spec fn lit_at(s: Seq<char>, i: int, l: Seq<char>) -> bool {
    0 <= i && i + l.len() <= s.len() && s.subrange(i, i + l.len()) == l
}

/// Reads the stages after the first: commas and stages, then `]`.
pub open spec fn stages_tail_at(s: Seq<char>, i: int) -> Option<(Seq<LoginType>, int)>
    decreases s.len() - i,
{
    if i < 0 || i >= s.len() {
        None
    } else if s[i] == ']' {
        Some((Seq::empty(), i + 1))
    } else if s[i] == ',' && lit_at(s, i + 1, stage_text(LoginType::Password)) {
        prepend_stage(
            LoginType::Password,
            stages_tail_at(s, i + 1 + stage_text(LoginType::Password).len()),
        )
    } else if s[i] == ',' && lit_at(s, i + 1, stage_text(LoginType::Token)) {
        prepend_stage(
            LoginType::Token,
            stages_tail_at(s, i + 1 + stage_text(LoginType::Token).len()),
        )
    } else {
        None
    }
}

pub open spec fn prepend_stage(t: LoginType, r: Option<(Seq<LoginType>, int)>) -> Option<
    (Seq<LoginType>, int),
> {
    match r {
        Some((v, k)) => Some((seq![t] + v, k)),
        None => None,
    }
}

/// Reads a JSON array of stages.
pub open spec fn stages_at(s: Seq<char>, i: int) -> Option<(Seq<LoginType>, int)> {
    if lit_at(s, i, "[]"@) {
        Some((Seq::empty(), i + 2))
    } else if lit_at(s, i, "["@) && lit_at(s, i + 1, stage_text(LoginType::Password)) {
        prepend_stage(
            LoginType::Password,
            stages_tail_at(s, i + 1 + stage_text(LoginType::Password).len()),
        )
    } else if lit_at(s, i, "["@) && lit_at(s, i + 1, stage_text(LoginType::Token)) {
        prepend_stage(
            LoginType::Token,
            stages_tail_at(s, i + 1 + stage_text(LoginType::Token).len()),
        )
    } else {
        None
    }
}

/// Reads a string field: the key literal, then a string.
#[verifier::opaque]
pub open spec fn str_field_at(s: Seq<char>, i: int, key: Seq<char>) -> Option<(Seq<char>, int)> {
    if lit_at(s, i, key) {
        str_at(s, i + key.len())
    } else {
        None
    }
}

/// Reads a number field: the key literal, then a number.
#[verifier::opaque]
pub open spec fn num_field_at(s: Seq<char>, i: int, key: Seq<char>) -> Option<(nat, int)> {
    if lit_at(s, i, key) {
        num_at(s, i + key.len())
    } else {
        None
    }
}

/// Reads the kind literal at the start.
#[verifier::opaque]
pub open spec fn kind_at(s: Seq<char>) -> Option<(TokenKind, int)> {
    if lit_at(s, 0, kind_text(TokenKind::Auth)) {
        Some((TokenKind::Auth, kind_text(TokenKind::Auth).len() as int))
    } else if lit_at(s, 0, kind_text(TokenKind::Session)) {
        Some((TokenKind::Session, kind_text(TokenKind::Session).len() as int))
    } else {
        None
    }
}

/// Reads the optional unique id.
#[verifier::opaque]
pub open spec fn jti_at(s: Seq<char>, i: int) -> Option<(Option<u32>, int)> {
    if lit_at(s, i, ",\"jti\":"@) {
        match num_at(s, i + ",\"jti\":"@.len()) {
            Some((n, j)) => if n <= u32::MAX {
                Some((Some(n as u32), j))
            } else {
                None
            },
            None => None,
        }
    } else {
        Some((None, i))
    }
}

/// Reads the optional list of completed stages.
#[verifier::opaque]
pub open spec fn complete_at(s: Seq<char>, i: int) -> Option<(Option<Seq<LoginType>>, int)> {
    if lit_at(s, i, ",\"complete\":"@) {
        match stages_at(s, i + ",\"complete\":"@.len()) {
            Some((v, j)) => Some((Some(v), j)),
            None => None,
        }
    } else {
        Some((None, i))
    }
}

/// Reads claims from their text form; `None` for any other text.
#[verifier::opaque]
pub open spec fn parse_claims(s: Seq<char>) -> Option<ClaimsView> {
    match kind_at(s) {
        None => None,
        Some((kind, p1)) => match str_field_at(s, p1, ",\"iss\":"@) {
            None => None,
            Some((iss, p2)) => match num_field_at(s, p2, ",\"iat\":"@) {
                None => None,
                Some((iat, p3)) => match num_field_at(s, p3, ",\"exp\":"@) {
                    None => None,
                    Some((exp, p4)) => match jti_at(s, p4) {
                        None => None,
                        Some((jti, p5)) => match str_field_at(s, p5, ",\"sub\":"@) {
                            None => None,
                            Some((sub, p6)) => match str_field_at(s, p6, ",\"device_id\":"@) {
                                None => None,
                                Some((device_id, p7)) => match complete_at(s, p7) {
                                    None => None,
                                    Some((complete, p8)) => if user_id_shape(sub) && lit_at(
                                        s,
                                        p8,
                                        "}"@,
                                    ) && p8 + 1 == s.len() {
                                        Some(
                                            ClaimsView {
                                                kind,
                                                iss,
                                                iat: iat as u64,
                                                exp: exp as u64,
                                                jti,
                                                sub,
                                                device_id,
                                                complete,
                                            },
                                        )
                                    } else {
                                        None
                                    },
                                },
                            },
                        },
                    },
                },
            },
        },
    }
}

/// Whether the literal `l` stands at position `i` of `s`.
pub(crate) fn lit_here(s: &Vec<char>, i: usize, l: &str) -> (r: bool)
    ensures
        r == lit_at(s@, i as int, l@),
{
    let lc = chars_of(l);
    if i > s.len() || lc.len() > s.len() - i {
        return false;
    }
    let mut k: usize = 0;
    while k < lc.len()
        invariant
            k <= lc.len(),
            i + lc.len() <= s.len(),
            lc@ == l@,
            forall|m: int| 0 <= m < k ==> s@[i + m] == lc@[m],
        decreases lc.len() - k,
    {
        if s[i + k] != lc[k] {
            assert(s@.subrange(i as int, i + lc.len())[k as int] != l@[k as int]);
            return false;
        }
        k = k + 1;
    }
    assert(s@.subrange(i as int, i + lc.len()) =~= l@);
    true
}

fn stage_literal(t: LoginType) -> (r: &'static str)
    ensures
        r@ == stage_text(t),
{
    match t {
        LoginType::Password => "\"m.login.password\"",
        LoginType::Token => "\"m.login.token\"",
    }
}

/// Writes a list of stages as a JSON array at the end of `out`.
fn write_stages(out: &mut String, v: &Vec<LoginType>)
    ensures
        final(out)@ == old(out)@ + stages_text(v@),
{
    if v.len() == 0 {
        out.append("[]");
        return;
    }
    out.append("[");
    out.append(stage_literal(v[0]));
    assert(v@.skip(1) == v@.drop_first());
    let mut i: usize = 1;
    while i < v.len()
        invariant
            1 <= i <= v.len(),
            out@ + stages_tail_text(v@.skip(i as int)) == old(out)@ + stages_text(v@),
        decreases v.len() - i,
    {
        let ghost before = out@;
        let ghost tail = stages_tail_text(v@.skip(i + 1));
        assert(v@.skip(i as int).drop_first() == v@.skip(i + 1));
        assert(stages_tail_text(v@.skip(i as int)) == ","@ + (stage_text(v@[i as int]) + tail));
        out.append(",");
        out.append(stage_literal(v[i]));
        assert(out@ + tail == before + (","@ + (stage_text(v@[i as int]) + tail)));
        i = i + 1;
    }
    assert(stages_tail_text(v@.skip(i as int)) == "]"@);
    out.append("]");
}

/// Reads the stages after the first: commas and stages, then `]`.
fn read_stages_tail(s: &Vec<char>, i: usize) -> (r: Option<(Vec<LoginType>, usize)>)
    ensures
        r is None <==> stages_tail_at(s@, i as int) is None,
        r matches Some((v, j)) ==> stages_tail_at(s@, i as int) == Some((v@, j as int)),
{
    let mut out: Vec<LoginType> = Vec::new();
    let mut j: usize = i;
    while j < s.len()
        invariant
            stages_tail_at(s@, i as int) == match stages_tail_at(s@, j as int) {
                Some((t, k)) => Some((out@ + t, k)),
                None => None,
            },
        decreases s.len() - j,
    {
        if s[j] == ']' {
            assert(out@ + Seq::<LoginType>::empty() == out@);
            return Some((out, j + 1));
        } else if s[j] == ',' && lit_here(s, j + 1, stage_literal(LoginType::Password)) {
            proof {
                assert(forall|t: Seq<LoginType>|
                    out@.push(LoginType::Password) + t == out@ + (seq![LoginType::Password] + t));
            }
            out.push(LoginType::Password);
            j = j + 1 + stage_literal(LoginType::Password).unicode_len();
        } else if s[j] == ',' && lit_here(s, j + 1, stage_literal(LoginType::Token)) {
            proof {
                assert(forall|t: Seq<LoginType>|
                    out@.push(LoginType::Token) + t == out@ + (seq![LoginType::Token] + t));
            }
            out.push(LoginType::Token);
            j = j + 1 + stage_literal(LoginType::Token).unicode_len();
        } else {
            return None;
        }
    }
    None
}

/// Reads a JSON array of stages.
fn read_stages(s: &Vec<char>, i: usize) -> (r: Option<(Vec<LoginType>, usize)>)
    ensures
        r is None <==> stages_at(s@, i as int) is None,
        r matches Some((v, j)) ==> stages_at(s@, i as int) == Some((v@, j as int)),
{
    proof {
        reveal_strlit("[]");
        reveal_strlit("[");
    }
    let len = s.len();
    if lit_here(s, i, "[]") {
        assert(i + 2 <= len);
        return Some((Vec::new(), i + 2));
    }
    if !lit_here(s, i, "[") {
        return None;
    }
    assert(i + 1 <= len);
    let first = if lit_here(s, i + 1, stage_literal(LoginType::Password)) {
        LoginType::Password
    } else if lit_here(s, i + 1, stage_literal(LoginType::Token)) {
        LoginType::Token
    } else {
        return None;
    };
    let n = stage_literal(first).unicode_len();
    let len = s.len();
    assert(i + 1 + n <= len);
    let next = i + 1 + n;
    match read_stages_tail(s, next) {
        Some((rest, j)) => {
            let mut v: Vec<LoginType> = Vec::new();
            v.push(first);
            let mut rest = rest;
            v.append(&mut rest);
            Some((v, j))
        },
        None => None,
    }
}

fn read_str_field(s: &Vec<char>, i: usize, key: &str) -> (r: Option<(Vec<char>, usize)>)
    ensures
        r is None <==> str_field_at(s@, i as int, key@) is None,
        r matches Some((v, j)) ==> str_field_at(s@, i as int, key@) == Some((v@, j as int)),
{
    reveal(str_field_at);
    if lit_here(s, i, key) {
        let n = key.unicode_len();
        let len = s.len();
        assert(i + n <= len);
        read_str(s, i + n)
    } else {
        None
    }
}

fn read_num_field(s: &Vec<char>, i: usize, key: &str) -> (r: Option<(u64, usize)>)
    ensures
        r is None <==> num_field_at(s@, i as int, key@) is None,
        r matches Some((v, j)) ==> num_field_at(s@, i as int, key@) == Some((v as nat, j as int)),
{
    reveal(num_field_at);
    if lit_here(s, i, key) {
        let n = key.unicode_len();
        let len = s.len();
        assert(i + n <= len);
        read_u64(s, i + n)
    } else {
        None
    }
}

impl Claims {
    /// The text form of these claims.
    pub fn to_text(&self) -> (r: String)
        ensures
            r@ == claims_text(self@),
    {
        let mut out = String::new();
        match self.kind {
            TokenKind::Auth => out.append("{\"kind\":\"auth\""),
            TokenKind::Session => out.append("{\"kind\":\"session\""),
        }
        out.append(",\"iss\":");
        write_quoted(&mut out, self.iss.as_str());
        out.append(",\"iat\":");
        write_u64(&mut out, self.iat);
        out.append(",\"exp\":");
        write_u64(&mut out, self.exp);
        let ghost upto_exp = out@;
        match self.jti {
            Some(j) => {
                out.append(",\"jti\":");
                write_u64(&mut out, j as u64);
            },
            None => {},
        }
        assert(out@ == upto_exp + jti_text(self.jti));
        out.append(",\"sub\":");
        write_quoted(&mut out, self.sub.as_str());
        out.append(",\"device_id\":");
        write_quoted(&mut out, self.device_id.as_str());
        let ghost upto_device = out@;
        match &self.complete {
            Some(v) => {
                out.append(",\"complete\":");
                write_stages(&mut out, v);
            },
            None => {},
        }
        assert(out@ == upto_device + complete_text(self@.complete));
        out.append("}");
        out
    }

    /// Reads claims from their text form; `None` for any other text.
    pub fn parse(text: &str) -> (r: Option<Claims>)
        ensures
            r is None <==> parse_claims(text@) is None,
            r matches Some(c) ==> parse_claims(text@) == Some(c@),
    {
        proof {
            reveal(parse_claims);
            reveal(kind_at);
            reveal(jti_at);
            reveal(complete_at);
        }
        let s = chars_of(text);
        let len = s.len();
        let (kind, p1) = if lit_here(&s, 0, "{\"kind\":\"auth\"") {
            (TokenKind::Auth, "{\"kind\":\"auth\"".unicode_len())
        } else if lit_here(&s, 0, "{\"kind\":\"session\"") {
            (TokenKind::Session, "{\"kind\":\"session\"".unicode_len())
        } else {
            return None;
        };
        let (iss, p2) = match read_str_field(&s, p1, ",\"iss\":") {
            Some(x) => x,
            None => return None,
        };
        let (iat, p3) = match read_num_field(&s, p2, ",\"iat\":") {
            Some(x) => x,
            None => return None,
        };
        let (exp, p4) = match read_num_field(&s, p3, ",\"exp\":") {
            Some(x) => x,
            None => return None,
        };
        let (jti, p5) = if lit_here(&s, p4, ",\"jti\":") {
            let n = ",\"jti\":".unicode_len();
            assert(p4 + n <= len);
            match read_u64(&s, p4 + n) {
                Some((v, j)) => if v <= u32::MAX as u64 {
                    (Some(v as u32), j)
                } else {
                    return None;
                },
                None => return None,
            }
        } else {
            (None, p4)
        };
        let (sub, p6) = match read_str_field(&s, p5, ",\"sub\":") {
            Some(x) => x,
            None => return None,
        };
        let (device_id, p7) = match read_str_field(&s, p6, ",\"device_id\":") {
            Some(x) => x,
            None => return None,
        };
        let (complete, p8) = if lit_here(&s, p7, ",\"complete\":") {
            let n = ",\"complete\":".unicode_len();
            assert(p7 + n <= len);
            match read_stages(&s, p7 + n) {
                Some((v, j)) => (Some(v), j),
                None => return None,
            }
        } else {
            (None, p7)
        };
        if !has_user_id_shape(&sub) || !lit_here(&s, p8, "}") || len - p8 != 1 {
            return None;
        }
        let c = Claims {
            kind,
            iss: string_of(&iss),
            iat,
            exp,
            jti,
            sub: UserId::from_trusted(string_of(&sub)),
            device_id: string_of(&device_id),
            complete,
        };
        assert(c@.complete == match complete {
            Some(v) => Some(v@),
            None => None::<Seq<LoginType>>,
        });
        Some(c)
    }
}



/// Splits off the last piece of a prefix of `s`.
proof fn lemma_split_prefix(s: Seq<char>, pre: Seq<char>, piece: Seq<char>)
    requires
        (pre.len() as int) + (piece.len() as int) <= s.len(),
        s.subrange(0, (pre.len() as int) + (piece.len() as int)) == pre + piece,
    ensures
        s.subrange(0, (pre.len() as int) as int) == pre,
        s.subrange((pre.len() as int) as int, (pre.len() as int) + (piece.len() as int)) == piece,
{
    assert(s.subrange(0, (pre.len() as int) as int) =~= (pre + piece).subrange(0, (pre.len() as int) as int));
    assert(s.subrange((pre.len() as int) as int, (pre.len() as int) + (piece.len() as int)) =~= (pre + piece).subrange(
        (pre.len() as int) as int,
        (pre.len() as int) + (piece.len() as int),
    ));
}

proof fn lemma_stage_literals_differ(s: Seq<char>, i: int, t: LoginType)
    requires
        lit_at(s, i, stage_text(t)),
    ensures
        lit_at(s, i, stage_text(LoginType::Password)) <==> t == LoginType::Password,
        lit_at(s, i, stage_text(LoginType::Token)) <==> t == LoginType::Token,
{
    reveal_strlit("\"m.login.password\"");
    reveal_strlit("\"m.login.token\"");
    let p = stage_text(LoginType::Password);
    let k = stage_text(LoginType::Token);
    assert(p[9] == 'p' && k[9] == 't');
    if lit_at(s, i, p) {
        assert(s[i + 9] == s.subrange(i, i + p.len())[9]);
    }
    if lit_at(s, i, k) {
        assert(s[i + 9] == s.subrange(i, i + k.len())[9]);
    }
    assert(s[i + 9] == s.subrange(i, i + stage_text(t).len())[9]);
}

proof fn lemma_stages_tail_round_trip(s: Seq<char>, i: int, v: Seq<LoginType>)
    requires
        lit_at(s, i, stages_tail_text(v)),
    ensures
        stages_tail_at(s, i) == Some((v, i + stages_tail_text(v).len())),
    decreases v.len(),
{
    reveal_strlit("]");
    reveal_strlit(",");
    let t = stages_tail_text(v);
    assert(t.len() > 0);
    assert(s[i] == s.subrange(i, i + (t.len() as int))[0]);
    if v.len() == 0 {
    } else {
        let st = stage_text(v[0]);
        let rest = stages_tail_text(v.drop_first());
        assert(t == ","@ + (st + rest));
        assert(t.subrange(1, 1 + (st.len() as int)) =~= st);
        assert(t.subrange(1 + (st.len() as int), (t.len() as int)) =~= rest);
        assert(s.subrange(i + 1, i + 1 + (st.len() as int)) =~= t.subrange(1, 1 + (st.len() as int)));
        assert(s.subrange(i + 1 + (st.len() as int), i + (t.len() as int)) =~= t.subrange(1 + (st.len() as int), (t.len() as int) as int));
        lemma_stage_literals_differ(s, i + 1, v[0]);
        reveal_strlit("\"m.login.password\"");
        reveal_strlit("\"m.login.token\"");
        assert(s[i] == ',');
        assert(s[i] != ']');
        lemma_stages_tail_round_trip(s, i + 1 + (st.len() as int), v.drop_first());
        assert(seq![v[0]] + v.drop_first() == v);
    }
}

proof fn lemma_stages_round_trip(s: Seq<char>, i: int, v: Seq<LoginType>)
    requires
        lit_at(s, i, stages_text(v)),
    ensures
        stages_at(s, i) == Some((v, i + stages_text(v).len())),
{
    reveal_strlit("[]");
    reveal_strlit("[");
    let t = stages_text(v);
    if v.len() == 0 {
    } else {
        let st = stage_text(v[0]);
        let rest = stages_tail_text(v.drop_first());
        assert(t == "["@ + (st + rest));
        assert(t.subrange(1, 1 + (st.len() as int)) =~= st);
        assert(t.subrange(1 + (st.len() as int), (t.len() as int)) =~= rest);
        assert(s[i] == t[0]);
        assert(s.subrange(i, i + 1) =~= "["@);
        assert(s.subrange(i + 1, i + 1 + (st.len() as int)) =~= t.subrange(1, 1 + (st.len() as int)));
        assert(s.subrange(i + 1 + (st.len() as int), i + (t.len() as int)) =~= t.subrange(1 + (st.len() as int), (t.len() as int) as int));
        lemma_stage_literals_differ(s, i + 1, v[0]);
        reveal_strlit("\"m.login.password\"");
        reveal_strlit("\"m.login.token\"");
        if lit_at(s, i, "[]"@) {
            assert(s[i + 1] == "[]"@[1]);
            assert(s[i + 1] == st[0]);
        }
        lemma_stages_tail_round_trip(s, i + 1 + (st.len() as int), v.drop_first());
        assert(seq![v[0]] + v.drop_first() == v);
    }
}

proof fn lemma_parse_claims_steps(s: Seq<char>, c: ClaimsView, p: Seq<int>)
    requires
        p.len() == 8,
        kind_at(s) == Some((c.kind, p[0])),
        str_field_at(s, p[0], ",\"iss\":"@) == Some((c.iss, p[1])),
        num_field_at(s, p[1], ",\"iat\":"@) == Some((c.iat as nat, p[2])),
        num_field_at(s, p[2], ",\"exp\":"@) == Some((c.exp as nat, p[3])),
        jti_at(s, p[3]) == Some((c.jti, p[4])),
        str_field_at(s, p[4], ",\"sub\":"@) == Some((c.sub, p[5])),
        str_field_at(s, p[5], ",\"device_id\":"@) == Some((c.device_id, p[6])),
        complete_at(s, p[6]) == Some((c.complete, p[7])),
        user_id_shape(c.sub),
        lit_at(s, p[7], "}"@),
        p[7] + 1 == s.len(),
    ensures
        parse_claims(s) == Some(c),
{
    reveal(parse_claims);
}

/// Splits a literal made of two parts.
proof fn lemma_lit_parts(s: Seq<char>, i: int, x: Seq<char>, y: Seq<char>)
    requires
        lit_at(s, i, x + y),
    ensures
        lit_at(s, i, x),
        lit_at(s, i + x.len(), y),
{
    let w = s.subrange(i, i + x.len() + y.len());
    assert(w == x + y);
    assert(s.subrange(i, i + x.len()) =~= w.subrange(0, x.len() as int));
    assert(w.subrange(0, x.len() as int) =~= x);
    assert(s.subrange(i + x.len(), i + x.len() + y.len()) =~= w.subrange(
        x.len() as int,
        (x.len() + y.len()) as int,
    ));
    assert(w.subrange(x.len() as int, (x.len() + y.len()) as int) =~= y);
}

/// The first character of a literal found in `s`.
proof fn lemma_lit_first(s: Seq<char>, i: int, l: Seq<char>)
    requires
        lit_at(s, i, l),
        l.len() > 0,
    ensures
        s[i] == l[0],
{
    assert(s[i] == s.subrange(i, i + l.len())[0]);
}

proof fn lemma_kind_step(s: Seq<char>, k: TokenKind)
    requires
        lit_at(s, 0, kind_text(k)),
    ensures
        kind_at(s) == Some((k, kind_text(k).len() as int)),
{
    reveal(kind_at);
    reveal_strlit("{\"kind\":\"auth\"");
    reveal_strlit("{\"kind\":\"session\"");
    let a = kind_text(TokenKind::Auth);
    let t = kind_text(k);
    assert(s[9] == s.subrange(0, t.len() as int)[9]);
    if lit_at(s, 0, a) {
        assert(s[9] == s.subrange(0, a.len() as int)[9]);
    }
}

proof fn lemma_str_field_step(s: Seq<char>, i: int, key: Seq<char>, v: Seq<char>)
    requires
        lit_at(s, i, key),
        lit_at(s, i + key.len(), quoted(v)),
    ensures
        str_field_at(s, i, key) == Some((v, i + key.len() + quoted(v).len())),
{
    reveal(str_field_at);
    lemma_str_at_quoted(s, i + key.len(), v);
}

proof fn lemma_num_field_step(s: Seq<char>, i: int, key: Seq<char>, n: u64, next: Seq<char>)
    requires
        lit_at(s, i, key),
        lit_at(s, i + key.len(), decimal(n as nat)),
        lit_at(s, i + key.len() + decimal(n as nat).len(), next),
        next.len() > 0,
        next[0] == ',',
    ensures
        num_field_at(s, i, key) == Some((n as nat, i + key.len() + decimal(n as nat).len())),
{
    reveal(num_field_at);
    lemma_lit_first(s, i + key.len() + decimal(n as nat).len(), next);
    lemma_num_at_decimal(s, i + key.len(), n as nat);
}

proof fn lemma_jti_step(s: Seq<char>, i: int, j: Option<u32>)
    requires
        lit_at(s, i, jti_text(j)),
        lit_at(s, i + jti_text(j).len(), ",\"sub\":"@),
    ensures
        jti_at(s, i) == Some((j, i + jti_text(j).len())),
{
    reveal(jti_at);
    reveal_strlit(",\"jti\":");
    reveal_strlit(",\"sub\":");
    let key = ",\"jti\":"@;
    let e = i + jti_text(j).len();
    lemma_lit_first(s, e, ",\"sub\":"@);
    match j {
        Some(n) => {
            lemma_lit_parts(s, i, key, decimal(n as nat));
            lemma_num_at_decimal(s, i + key.len(), n as nat);
        },
        None => {
            if lit_at(s, i, key) {
                assert(s[i + 2] == s.subrange(i, i + key.len())[2]);
                assert(s[i + 2] == s.subrange(e, e + 7)[2]);
            }
        },
    }
}

proof fn lemma_complete_step(s: Seq<char>, i: int, c: Option<Seq<LoginType>>)
    requires
        lit_at(s, i, complete_text(c)),
        lit_at(s, i + complete_text(c).len(), "}"@),
    ensures
        complete_at(s, i) == Some((c, i + complete_text(c).len())),
{
    reveal(complete_at);
    reveal_strlit(",\"complete\":");
    reveal_strlit("}");
    let key = ",\"complete\":"@;
    let e = i + complete_text(c).len();
    lemma_lit_first(s, e, "}"@);
    match c {
        Some(v) => {
            lemma_lit_parts(s, i, key, stages_text(v));
            lemma_stages_round_trip(s, i + key.len(), v);
        },
        None => {
            if lit_at(s, i, key) {
                assert(s[i] == s.subrange(i, i + key.len())[0]);
            }
        },
    }
}

/// Where each piece of the text form of `c` stands.
proof fn lemma_claims_pieces(c: ClaimsView)
    ensures
        ({
            let s = claims_text(c);
            let q0 = kind_text(c.kind);
            let q1 = q0 + ",\"iss\":"@;
            let q2 = q1 + quoted(c.iss);
            let q3 = q2 + ",\"iat\":"@;
            let q4 = q3 + decimal(c.iat as nat);
            let q5 = q4 + ",\"exp\":"@;
            let q6 = q5 + decimal(c.exp as nat);
            let q7 = q6 + jti_text(c.jti);
            let q8 = q7 + ",\"sub\":"@;
            let q9 = q8 + quoted(c.sub);
            let q10 = q9 + ",\"device_id\":"@;
            let q11 = q10 + quoted(c.device_id);
            let q12 = q11 + complete_text(c.complete);
            &&& lit_at(s, 0, q0)
            &&& lit_at(s, q0.len() as int, ",\"iss\":"@)
            &&& lit_at(s, q1.len() as int, quoted(c.iss))
            &&& lit_at(s, q2.len() as int, ",\"iat\":"@)
            &&& lit_at(s, q3.len() as int, decimal(c.iat as nat))
            &&& lit_at(s, q4.len() as int, ",\"exp\":"@)
            &&& lit_at(s, q5.len() as int, decimal(c.exp as nat))
            &&& lit_at(s, q6.len() as int, jti_text(c.jti))
            &&& lit_at(s, q7.len() as int, ",\"sub\":"@)
            &&& lit_at(s, q8.len() as int, quoted(c.sub))
            &&& lit_at(s, q9.len() as int, ",\"device_id\":"@)
            &&& lit_at(s, q10.len() as int, quoted(c.device_id))
            &&& lit_at(s, q11.len() as int, complete_text(c.complete))
            &&& lit_at(s, q12.len() as int, "}"@)
            &&& s.len() == q12.len() + "}"@.len()
        }),
{
    let s = claims_text(c);
    let q0 = kind_text(c.kind);
    let q1 = q0 + ",\"iss\":"@;
    let q2 = q1 + quoted(c.iss);
    let q3 = q2 + ",\"iat\":"@;
    let q4 = q3 + decimal(c.iat as nat);
    let q5 = q4 + ",\"exp\":"@;
    let q6 = q5 + decimal(c.exp as nat);
    let q7 = q6 + jti_text(c.jti);
    let q8 = q7 + ",\"sub\":"@;
    let q9 = q8 + quoted(c.sub);
    let q10 = q9 + ",\"device_id\":"@;
    let q11 = q10 + quoted(c.device_id);
    let q12 = q11 + complete_text(c.complete);
    assert(s == q12 + "}"@);
    assert(lit_at(s, 0, s)) by {
        assert(s.subrange(0, s.len() as int) =~= s);
    }
    lemma_lit_parts(s, 0, q12, "}"@);
    lemma_lit_parts(s, 0, q11, complete_text(c.complete));
    lemma_lit_parts(s, 0, q10, quoted(c.device_id));
    lemma_lit_parts(s, 0, q9, ",\"device_id\":"@);
    lemma_lit_parts(s, 0, q8, quoted(c.sub));
    lemma_lit_parts(s, 0, q7, ",\"sub\":"@);
    lemma_lit_parts(s, 0, q6, jti_text(c.jti));
    lemma_lit_parts(s, 0, q5, decimal(c.exp as nat));
    lemma_lit_parts(s, 0, q4, ",\"exp\":"@);
    lemma_lit_parts(s, 0, q3, decimal(c.iat as nat));
    lemma_lit_parts(s, 0, q2, ",\"iat\":"@);
    lemma_lit_parts(s, 0, q1, quoted(c.iss));
    lemma_lit_parts(s, 0, q0, ",\"iss\":"@);
}

/// Claims read back from their text form are the claims that were written,
/// for every user id of the right shape.
pub proof fn lemma_claims_round_trip(c: ClaimsView)
    requires
        user_id_shape(c.sub),
    ensures
        parse_claims(claims_text(c)) == Some(c),
{
    let s = claims_text(c);
    let q0 = kind_text(c.kind);
    let q1 = q0 + ",\"iss\":"@;
    let q2 = q1 + quoted(c.iss);
    let q3 = q2 + ",\"iat\":"@;
    let q4 = q3 + decimal(c.iat as nat);
    let q5 = q4 + ",\"exp\":"@;
    let q6 = q5 + decimal(c.exp as nat);
    let q7 = q6 + jti_text(c.jti);
    let q8 = q7 + ",\"sub\":"@;
    let q9 = q8 + quoted(c.sub);
    let q10 = q9 + ",\"device_id\":"@;
    let q11 = q10 + quoted(c.device_id);
    let q12 = q11 + complete_text(c.complete);
    lemma_claims_pieces(c);
    lemma_kind_step(s, c.kind);
    lemma_str_field_step(s, q0.len() as int, ",\"iss\":"@, c.iss);
    reveal_strlit(",\"exp\":");
    reveal_strlit(",\"sub\":");
    lemma_num_field_step(s, q2.len() as int, ",\"iat\":"@, c.iat, ",\"exp\":"@);
    if c.jti is Some {
        reveal_strlit(",\"jti\":");
        lemma_num_field_step(s, q4.len() as int, ",\"exp\":"@, c.exp, jti_text(c.jti));
    } else {
        lemma_num_field_step(s, q4.len() as int, ",\"exp\":"@, c.exp, ",\"sub\":"@);
    }
    lemma_jti_step(s, q6.len() as int, c.jti);
    lemma_str_field_step(s, q7.len() as int, ",\"sub\":"@, c.sub);
    lemma_str_field_step(s, q9.len() as int, ",\"device_id\":"@, c.device_id);
    lemma_complete_step(s, q11.len() as int, c.complete);
    reveal_strlit("}");
    lemma_parse_claims_steps(
        s,
        c,
        seq![
            q0.len() as int,
            q2.len() as int,
            q4.len() as int,
            q6.len() as int,
            q7.len() as int,
            q9.len() as int,
            q11.len() as int,
            q12.len() as int,
        ],
    );
}

} // verus!
