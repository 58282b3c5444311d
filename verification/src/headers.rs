//! The default header set of the client: its exact order of precedence,
//! and validity of header names and values.
use vstd::prelude::*;
use vstd::string::*;

use crate::options::ClientOptions;

verus! {

/// Whether a character may stand in a header name: an HTTP token character.
pub open spec fn spec_valid_header_name_char(c: char) -> bool {
    ||| 97 <= c as u32 <= 122
    ||| 65 <= c as u32 <= 90
    ||| 48 <= c as u32 <= 57
    ||| c == '!' || c == '#' || c == '$' || c == '%' || c == '&' || c == '\'' || c == '*'
    ||| c == '+' || c == '-' || c == '.' || c == '^' || c == '_' || c == '`' || c == '|'
    ||| c == '~'
}

/// Whether a character may stand in a header value: a tab or anything that
/// is neither an other control character nor delete.
pub open spec fn spec_valid_header_value_char(c: char) -> bool {
    c == '\t' || (c as u32 >= 32 && c as u32 != 127)
}

/// Whether a name-value pair can be encoded as an HTTP header.
pub open spec fn spec_header_pair_valid(name: Seq<char>, value: Seq<char>) -> bool {
    &&& name.len() > 0
    &&& forall|i: int| 0 <= i < name.len() ==> spec_valid_header_name_char(#[trigger] name[i])
    &&& forall|i: int| 0 <= i < value.len() ==> spec_valid_header_value_char(#[trigger] value[i])
}

/// The views of a list of owned header pairs.
pub open spec fn spec_pairs_view(v: Seq<(String, String)>) -> Seq<(Seq<char>, Seq<char>)> {
    v.map_values(|p: (String, String)| (p.0@, p.1@))
}

/// Whether every pair of a header plan can be encoded.
pub open spec fn spec_headers_valid(plan: Seq<(Seq<char>, Seq<char>)>) -> bool {
    forall|i: int| 0 <= i < plan.len() ==> spec_header_pair_valid(
        (#[trigger] plan[i]).0,
        plan[i].1,
    )
}

fn header_name_valid(name: &str) -> (r: bool)
    ensures
        r == (name@.len() > 0 && forall|i: int|
            0 <= i < name@.len() ==> spec_valid_header_name_char(#[trigger] name@[i])),
{
    let n = name.unicode_len();
    if n == 0 {
        return false;
    }
    let mut i: usize = 0;
    while i < n
        invariant
            0 <= i <= n,
            n == name@.len(),
            forall|j: int| 0 <= j < i ==> spec_valid_header_name_char(#[trigger] name@[j]),
        decreases n - i,
    {
        let c = name.get_char(i);
        let cv = c as u32;
        let ok = (97 <= cv && cv <= 122) || (65 <= cv && cv <= 90) || (48 <= cv && cv <= 57)
            || c == '!' || c == '#' || c == '$' || c == '%' || c == '&' || c == '\'' || c == '*'
            || c == '+' || c == '-' || c == '.' || c == '^' || c == '_' || c == '`' || c == '|'
            || c == '~';
        if !ok {
            return false;
        }
        i = i + 1;
    }
    true
}

fn header_value_valid(value: &str) -> (r: bool)
    ensures
        r == forall|i: int|
            0 <= i < value@.len() ==> spec_valid_header_value_char(#[trigger] value@[i]),
{
    let n = value.unicode_len();
    let mut i: usize = 0;
    while i < n
        invariant
            0 <= i <= n,
            n == value@.len(),
            forall|j: int| 0 <= j < i ==> spec_valid_header_value_char(#[trigger] value@[j]),
        decreases n - i,
    {
        let c = value.get_char(i);
        let cv = c as u32;
        if !(c == '\t' || (cv >= 32 && cv != 127)) {
            return false;
        }
        i = i + 1;
    }
    true
}

/// Whether every pair of a header list can be encoded as an HTTP header.
pub fn headers_valid(hs: &Vec<(String, String)>) -> (r: bool)
    ensures
        r == spec_headers_valid(spec_pairs_view(hs@)),
{
    let n = hs.len();
    let mut i: usize = 0;
    while i < n
        invariant
            0 <= i <= n,
            n == hs@.len(),
            forall|j: int| 0 <= j < i ==> spec_header_pair_valid(
                (#[trigger] spec_pairs_view(hs@)[j]).0,
                spec_pairs_view(hs@)[j].1,
            ),
        decreases n - i,
    {
        let pair = &hs[i];
        if !header_name_valid(pair.0.as_str()) || !header_value_valid(pair.1.as_str()) {
            proof {
                assert(spec_pairs_view(hs@)[i as int] == (hs@[i as int].0@, hs@[i as int].1@));
                assert(!spec_header_pair_valid(
                    spec_pairs_view(hs@)[i as int].0,
                    spec_pairs_view(hs@)[i as int].1,
                ));
            }
            return false;
        }
        i = i + 1;
    }
    true
}

/// The ordered default header plan: the user agent (caller-supplied or
/// default), the SDK language and version tags, then the bearer token if
/// present, else the API key if present, then the caller's custom headers.
/// Later entries win on collision.
pub open spec fn spec_header_plan_parts(
    user_agent: Option<String>,
    bearer_token: Option<String>,
    api_key: Option<String>,
    custom_headers: Option<Vec<(String, String)>>,
) -> Seq<(Seq<char>, Seq<char>)> {
    seq![
        ("User-Agent"@, match user_agent {
            Some(u) => u@,
            None => "yourapi-rust-sdk/0.1.0"@,
        }),
        ("X-SDK-Language"@, "rust"@),
        ("X-SDK-Version"@, "0.1.0"@),
    ] + (match bearer_token {
        Some(t) => seq![("Authorization"@, "Bearer "@ + t@)],
        None => match api_key {
            Some(k) => seq![("X-API-Key"@, k@)],
            None => Seq::<(Seq<char>, Seq<char>)>::empty(),
        },
    }) + (match custom_headers {
        Some(hs) => spec_pairs_view(hs@),
        None => Seq::<(Seq<char>, Seq<char>)>::empty(),
    })
}

/// The header plan of a configuration.
pub open spec fn spec_header_plan(o: ClientOptions) -> Seq<(Seq<char>, Seq<char>)> {
    spec_header_plan_parts(o.user_agent, o.bearer_token, o.api_key, o.custom_headers)
}

/// Builds the default header list in the documented order of precedence.
pub fn build_header_plan(
    user_agent: Option<String>,
    bearer_token: Option<String>,
    api_key: Option<String>,
    custom_headers: Option<Vec<(String, String)>>,
) -> (r: Vec<(String, String)>)
    ensures
        spec_pairs_view(r@) == spec_header_plan_parts(
            user_agent,
            bearer_token,
            api_key,
            custom_headers,
        ),
{
    let ghost plan = spec_header_plan_parts(user_agent, bearer_token, api_key, custom_headers);
    let mut hs: Vec<(String, String)> = Vec::new();
    let ua = match user_agent {
        Some(u) => u,
        None => String::from_str("yourapi-rust-sdk/0.1.0"),
    };
    hs.push((String::from_str("User-Agent"), ua));
    hs.push((String::from_str("X-SDK-Language"), String::from_str("rust")));
    hs.push((String::from_str("X-SDK-Version"), String::from_str("0.1.0")));
    match bearer_token {
        Some(t) => {
            hs.push(
                (String::from_str("Authorization"), String::from_str("Bearer ").concat(t.as_str())),
            );
        },
        None => {
            match api_key {
                Some(k) => {
                    hs.push((String::from_str("X-API-Key"), k));
                },
                None => {},
            }
        },
    }
    match custom_headers {
        Some(mut cs) => {
            hs.append(&mut cs);
        },
        None => {},
    }
    proof {
        assert(spec_pairs_view(hs@) =~= plan);
    }
    hs
}

/// Whether a header plan holds an entry of the given name.
pub open spec fn spec_plan_has_name(plan: Seq<(Seq<char>, Seq<char>)>, name: Seq<char>) -> bool {
    exists|i: int| 0 <= i < plan.len() && (#[trigger] plan[i]).0 == name
}

/// When a bearer token is configured, the plan carries `Authorization`, and
/// carries `X-API-Key` only if a custom header supplies one: the API key is
/// never emitted beside the bearer token.
pub proof fn lemma_auth_precedence(o: ClientOptions)
    requires
        o.bearer_token is Some,
    ensures
        spec_plan_has_name(spec_header_plan(o), "Authorization"@),
        (o.bearer_token matches Some(t) ==> spec_header_plan(o)[3] == (
            "Authorization"@,
            "Bearer "@ + t@,
        )),
        (match o.custom_headers {
            Some(hs) => forall|i: int|
                0 <= i < hs@.len() ==> (#[trigger] hs@[i]).0@ != "X-API-Key"@,
            None => true,
        }) ==> !spec_plan_has_name(spec_header_plan(o), "X-API-Key"@),
{
    reveal_strlit("User-Agent");
    reveal_strlit("X-SDK-Language");
    reveal_strlit("X-SDK-Version");
    reveal_strlit("Authorization");
    reveal_strlit("X-API-Key");
    let plan = spec_header_plan(o);
    assert(plan[3].0 == "Authorization"@);
    assert(spec_plan_has_name(plan, "Authorization"@));
    let no_custom_key = (match o.custom_headers {
        Some(hs) => forall|i: int| 0 <= i < hs@.len() ==> (#[trigger] hs@[i]).0@ != "X-API-Key"@,
        None => true,
    });
    if no_custom_key {
        assert("User-Agent"@.len() == 10);
        assert("X-SDK-Language"@.len() == 14);
        assert("X-SDK-Version"@.len() == 13);
        assert("Authorization"@.len() == 13);
        assert("X-API-Key"@.len() == 9);
        assert forall|i: int| 0 <= i < plan.len() implies (#[trigger] plan[i]).0 != "X-API-Key"@ by {
            if i >= 4 {
                match o.custom_headers {
                    Some(hs) => {
                        assert(plan[i] == spec_pairs_view(hs@)[i - 4]);
                        assert(plan[i].0 == hs@[i - 4].0@);
                    },
                    None => {},
                }
            }
        }
    }
}

} // verus!
