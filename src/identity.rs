use vstd::prelude::*;
use crate::colors::palette_color;

verus! {

broadcast use vstd::string::group_string_axioms;

/// The character of decimal digit `d`.
pub open spec fn digit_char(d: int) -> char {
    if d == 0 {
        '0'
    } else if d == 1 {
        '1'
    } else if d == 2 {
        '2'
    } else if d == 3 {
        '3'
    } else if d == 4 {
        '4'
    } else if d == 5 {
        '5'
    } else if d == 6 {
        '6'
    } else if d == 7 {
        '7'
    } else if d == 8 {
        '8'
    } else {
        '9'
    }
}

/// Decimal digits of `n`, most significant first, without leading zeros.
pub open spec fn digits(n: nat) -> Seq<char>
    decreases n,
{
    if n < 10 {
        seq![digit_char(n as int)]
    } else {
        digits(n / 10).push(digit_char((n % 10) as int))
    }
}

/// Decimal text of `n`, with a leading minus sign when negative.
pub open spec fn decimal(n: int) -> Seq<char> {
    if n < 0 {
        seq!['-'] + digits((-n) as nat)
    } else {
        digits(n as nat)
    }
}

/// Sum of the code points of `s`.
pub open spec fn code_point_sum(s: Seq<char>) -> int
    decreases s.len(),
{
    if s.len() == 0 {
        0
    } else {
        code_point_sum(s.drop_last()) + (s.last() as u32)
    }
}

/// `x` wrapped into the range of `i32`, as two's complement addition does.
pub open spec fn wrap_i32(x: int) -> int {
    let m = x % 0x1_0000_0000;
    if m >= 0x8000_0000 {
        m - 0x1_0000_0000
    } else {
        m
    }
}

/// Player id of an anonymous participant: the code points of its session
/// token summed with 32-bit wrap-around, made non-negative, reduced below a
/// million and shifted to start at 1.
pub open spec fn anon_player_id(token: Seq<char>) -> int {
    let h = wrap_i32(code_point_sum(token));
    (if h < 0 {
        -h
    } else {
        h
    }) % 1_000_000 + 1
}

/// The text of digit `d`.
fn digit_text(d: u64) -> (r: &'static str)
    requires
        d < 10,
    ensures
        r@ == seq![digit_char(d as int)],
{
    if d == 0 {
        proof { reveal_strlit("0"); }
        "0"
    } else if d == 1 {
        proof { reveal_strlit("1"); }
        "1"
    } else if d == 2 {
        proof { reveal_strlit("2"); }
        "2"
    } else if d == 3 {
        proof { reveal_strlit("3"); }
        "3"
    } else if d == 4 {
        proof { reveal_strlit("4"); }
        "4"
    } else if d == 5 {
        proof { reveal_strlit("5"); }
        "5"
    } else if d == 6 {
        proof { reveal_strlit("6"); }
        "6"
    } else if d == 7 {
        proof { reveal_strlit("7"); }
        "7"
    } else if d == 8 {
        proof { reveal_strlit("8"); }
        "8"
    } else {
        proof { reveal_strlit("9"); }
        "9"
    }
}

/// Appends the decimal digits of `n` to `out`.
fn append_digits(out: &mut String, n: u64)
    ensures
        final(out)@ == old(out)@ + digits(n as nat),
    decreases n,
{
    if n >= 10 {
        append_digits(out, n / 10);
    }
    out.append(digit_text(n % 10));
    proof {
        if n >= 10 {
            assert(old(out)@ + digits((n / 10) as nat) + seq![digit_char((n % 10) as int)]
                =~= old(out)@ + digits(n as nat));
        } else {
            assert(old(out)@ + seq![digit_char((n % 10) as int)] =~= old(out)@ + digits(n as nat));
        }
    }
}

/// `prefix` followed by the decimal text of `n`.
pub fn with_decimal(prefix: &str, n: i32) -> (r: String)
    ensures
        r@ == prefix@ + decimal(n as int),
{
    let mut out = prefix.to_owned();
    if n < 0 {
        proof { reveal_strlit("-"); }
        out.append("-");
        let magnitude: u64 = (-(n as i64)) as u64;
        append_digits(&mut out, magnitude);
        assert(prefix@ + seq!['-'] + digits(magnitude as nat) =~= prefix@ + decimal(n as int));
    } else {
        append_digits(&mut out, n as u64);
    }
    out
}

/// Player id that an anonymous participant gets from its session token.
pub fn anonymous_player_id(session_id: &str) -> (r: i32)
    ensures
        r == anon_player_id(session_id@),
        1 <= r <= 1_000_000,
{
    let mut acc: u64 = 0;
    for c in it: session_id.chars()
        invariant
            it.seq() == session_id@,
            acc < 0x1_0000_0000,
            acc == code_point_sum(session_id@.subrange(0, it.index() as int)) % 0x1_0000_0000,
    {
        let ghost k = it.index();
        assert(session_id@.subrange(0, k + 1).drop_last() =~= session_id@.subrange(0, k as int));
        assert(session_id@[k as int] == c);
        let code: u64 = c as u32 as u64;
        assert(session_id@.subrange(0, k + 1).last() == c);
        let next: u64 = (acc + code) % 0x1_0000_0000;
        assert(next == code_point_sum(session_id@.subrange(0, k + 1)) % 0x1_0000_0000)
            by (nonlinear_arith)
            requires
                acc == code_point_sum(session_id@.subrange(0, k as int)) % 0x1_0000_0000,
                code_point_sum(session_id@.subrange(0, k + 1)) == code_point_sum(
                    session_id@.subrange(0, k as int),
                ) + code,
                next == (acc + code) % 0x1_0000_0000,
        ;
        acc = next;
    }
    assert(session_id@.subrange(0, session_id@.len() as int) =~= session_id@);
    let signed: i64 = if acc >= 0x8000_0000 {
        acc as i64 - 0x1_0000_0000
    } else {
        acc as i64
    };
    let magnitude: i64 = if signed < 0 {
        -signed
    } else {
        signed
    };
    (magnitude % 1_000_000 + 1) as i32
}

/// The decoded name/value pairs of a URL query string, in order.
pub uninterp spec fn form_pairs(query: Seq<char>) -> Seq<(Seq<char>, Seq<char>)>;

/// The pairs of `v` with their strings seen as character sequences.
pub open spec fn pair_views(v: Seq<(String, String)>) -> Seq<(Seq<char>, Seq<char>)> {
    v.map_values(|p: (String, String)| (p.0@, p.1@))
}

/// The value of the first pair of `pairs` named `key`.
pub open spec fn first_value(pairs: Seq<(Seq<char>, Seq<char>)>, key: Seq<char>) -> Option<Seq<char>>
    decreases pairs.len(),
{
    if pairs.len() == 0 {
        None
    } else if pairs[0].0 == key {
        Some(pairs[0].1)
    } else {
        first_value(pairs.drop_first(), key)
    }
}

/// The character sequence inside an optional string.
pub open spec fn opt_view(o: Option<String>) -> Option<Seq<char>> {
    match o {
        Some(s) => Some(s@),
        None => None,
    }
}

/// Relies on url::form_urlencoded::parse: the percent-decoded name/value
/// pairs of a query string, in the order they appear; an empty query has none.
#[verifier::external_body]
fn query_pairs(query: &str) -> (r: Vec<(String, String)>)
    ensures
        pair_views(r@) == form_pairs(query@),
        query@.len() == 0 ==> r@.len() == 0,
{
    url::form_urlencoded::parse(query.as_bytes()).map(|(k, v)| (k.into_owned(), v.into_owned())).collect()
}

/// The value of the first pair named `key`.
pub fn lookup_pair(pairs: &Vec<(String, String)>, key: &str) -> (r: Option<String>)
    ensures
        opt_view(r) == first_value(pair_views(pairs@), key@),
{
    let key_text: String = key.to_owned();
    assert(pair_views(pairs@).subrange(0, pairs@.len() as int) =~= pair_views(pairs@));
    let mut i: usize = 0;
    while i < pairs.len()
        invariant
            i <= pairs.len(),
            key_text@ == key@,
            first_value(pair_views(pairs@), key@) == first_value(
                pair_views(pairs@).subrange(i as int, pairs@.len() as int),
                key@,
            ),
        decreases pairs.len() - i,
    {
        let ghost rest = pair_views(pairs@).subrange(i as int, pairs@.len() as int);
        assert(rest.drop_first() =~= pair_views(pairs@).subrange(i + 1, pairs@.len() as int));
        if pairs[i].0 == key_text {
            return Some(pairs[i].1.clone());
        }
        i += 1;
    }
    None
}

/// The value of the first parameter named `key` in URL query string `query`.
pub fn query_param(query: &str, key: &str) -> (r: Option<String>)
    ensures
        opt_view(r) == first_value(form_pairs(query@), key@),
{
    let pairs = query_pairs(query);
    lookup_pair(&pairs, key)
}

/// The registered user that decoded token claims name: the `sub` claim, or
/// failing that the `user_id` claim, when it is a 32-bit integer.
pub open spec fn claimed_user(claims: Option<(Option<i64>, Option<i64>)>) -> Option<i32> {
    match claims {
        None => None,
        Some((sub, user_id)) => {
            let id = if sub is Some {
                sub
            } else {
                user_id
            };
            match id {
                Some(v) => if i32::MIN <= v <= i32::MAX {
                    Some(v as i32)
                } else {
                    None
                },
                None => None,
            }
        },
    }
}

/// Relies on jsonwebtoken::decode with an HS256 key made from `secret`, the
/// expiry checked against the system clock: the integer `sub` and `user_id`
/// claims of a token that verifies, `None` for one that does not.  The
/// outcome depends on the clock, so nothing is stated of it.
#[verifier::external_body]
fn decode_token_claims(token: &str, secret: &str) -> (r: Option<(Option<i64>, Option<i64>)>) {
    let mut validation = jsonwebtoken::Validation::new(jsonwebtoken::Algorithm::HS256);
    validation.validate_exp = true;
    let key = jsonwebtoken::DecodingKey::from_secret(secret.as_bytes());
    jsonwebtoken::decode::<serde_json::Value>(token, &key, &validation).ok().map(
        |data| (data.claims.get("sub").and_then(|v| v.as_i64()), data.claims.get("user_id").and_then(|v| v.as_i64())),
    )
}

/// The registered user that decoded token claims name.
pub fn user_from_claims(claims: Option<(Option<i64>, Option<i64>)>) -> (r: Option<i32>)
    ensures
        r == claimed_user(claims),
{
    match claims {
        None => None,
        Some((sub, user_id)) => {
            let id = if sub.is_some() {
                sub
            } else {
                user_id
            };
            match id {
                Some(v) => if i32::MIN as i64 <= v && v <= i32::MAX as i64 {
                    Some(v as i32)
                } else {
                    None
                },
                None => None,
            }
        },
    }
}

/// The registered user named by bearer token `token` signed with `secret`.
pub fn user_from_token(token: &str, secret: &str) -> (r: Option<i32>)
    ensures
        exists|claims: Option<(Option<i64>, Option<i64>)>| r == claimed_user(claims),
{
    let claims = decode_token_claims(token, secret);
    user_from_claims(claims)
}

/// Who opens a room connection, as the handshake tells: a registered user
/// (from the authentication layer, else from a `token` query parameter) and
/// an anonymous session token (the `session_id` query parameter).
pub struct Caller {
    pub user_id: Option<i32>,
    pub session_id: Option<String>,
}

/// Reads the caller from the handshake: `authenticated` is the user that the
/// authentication layer already established, `query` the query string of the
/// upgrade request, `secret` the key that tokens are signed with.
pub fn read_caller(authenticated: Option<i32>, query: &str, secret: &str) -> (r: Caller)
    ensures
        opt_view(r.session_id) == first_value(form_pairs(query@), "session_id"@),
        authenticated is Some ==> r.user_id == authenticated,
        authenticated is None && first_value(form_pairs(query@), "token"@) is None ==> r.user_id is None,
        authenticated is None && first_value(form_pairs(query@), "token"@) is Some ==> exists|
            claims: Option<(Option<i64>, Option<i64>)>,
        | r.user_id == claimed_user(claims),
{
    let user_id = match authenticated {
        Some(u) => Some(u),
        None => match query_param(query, "token") {
            Some(token) => user_from_token(token.as_str(), secret),
            None => None,
        },
    };
    Caller { user_id, session_id: query_param(query, "session_id") }
}

/// Color given to a participant whose record names none: the palette's
/// green.
pub open spec fn default_color() -> Seq<char> {
    palette_color(2)
}

/// Name given to a participant without a record.
pub open spec fn placeholder_name() -> Seq<char> {
    "Unknown"@
}

/// What the participant store holds of a participant of a room.
pub struct ParticipantRecord {
    pub display_name: String,
    pub color: Option<String>,
}

/// The server-known identity of a connection, stamped on what it sends.
#[derive(Debug)]
pub struct Identity {
    pub player_id: i32,
    pub display_name: String,
    pub color: String,
    pub session_token: String,
}

/// An identity with its strings seen as character sequences.
pub struct IdentityView {
    pub player_id: i32,
    pub display_name: Seq<char>,
    pub color: Seq<char>,
    pub session_token: Seq<char>,
}

impl View for Identity {
    type V = IdentityView;

    open spec fn view(&self) -> IdentityView {
        IdentityView {
            player_id: self.player_id,
            display_name: self.display_name@,
            color: self.color@,
            session_token: self.session_token@,
        }
    }
}

impl Identity {
    /// A copy of this identity.
    pub fn duplicate(&self) -> (r: Identity)
        ensures
            r@ == self@,
    {
        Identity {
            player_id: self.player_id,
            display_name: self.display_name.clone(),
            color: self.color.clone(),
            session_token: self.session_token.clone(),
        }
    }
}

/// Why a connection is refused.
#[derive(Debug, Clone, Copy, PartialEq, Eq, Structural)]
pub enum ResolveError {
    /// The handshake named neither a registered user nor a session token.
    AuthenticationFailure,
}

/// The identity of a caller whose participant record, looked up by the
/// caller's user or session token, is `record` (`None` when no record was
/// found or the store failed).  A caller with neither a user nor a session
/// token is refused; a missing record gives a placeholder name and the
/// default color rather than a refusal.
pub fn resolve_identity(caller: Caller, record: Option<ParticipantRecord>) -> (r: Result<
    Identity,
    ResolveError,
>)
    ensures
        (caller.user_id is None && caller.session_id is None) <==> r is Err,
        match r {
            Ok(id) => {
                &&& id.player_id == match caller.user_id {
                    Some(u) => u as int,
                    None => anon_player_id(caller.session_id->0@),
                }
                &&& id.display_name@ == match record {
                    Some(p) => p.display_name@,
                    None => placeholder_name(),
                }
                &&& id.color@ == match record {
                    Some(p) => match p.color {
                        Some(c) => c@,
                        None => default_color(),
                    },
                    None => default_color(),
                }
                &&& id.session_token@ == match caller.session_id {
                    Some(s) => s@,
                    None => "user_"@ + decimal(caller.user_id->0 as int),
                }
            },
            Err(e) => e == ResolveError::AuthenticationFailure,
        },
{
    if caller.user_id.is_none() && caller.session_id.is_none() {
        return Err(ResolveError::AuthenticationFailure);
    }
    let (display_name, color) = match record {
        Some(p) => {
            let color = match p.color {
                Some(c) => c,
                None => "#10B981".to_owned(),
            };
            (p.display_name, color)
        },
        None => ("Unknown".to_owned(), "#10B981".to_owned()),
    };
    let player_id = match caller.user_id {
        Some(u) => u,
        None => match &caller.session_id {
            Some(sid) => anonymous_player_id(sid.as_str()),
            None => 0,
        },
    };
    let session_token = match caller.session_id {
        Some(sid) => sid,
        None => match caller.user_id {
            Some(u) => with_decimal("user_", u),
            None => with_decimal("user_", 0),
        },
    };
    Ok(Identity { player_id, display_name, color, session_token })
}

} // verus!
