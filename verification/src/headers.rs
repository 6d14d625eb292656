use vstd::prelude::*;

use crate::error::WebSocketError;

verus! {

/// ASCII-lowercase of one character; header names compare case-insensitively
/// and are canonicalized to lowercase.
pub open spec fn lower_char(c: char) -> char {
    if 65 <= c as u32 && c as u32 <= 90 {
        ((c as u32 + 32) as char)
    } else {
        c
    }
}

/// The canonical (ASCII-lowercase) form of a header name.
pub open spec fn canonical(s: Seq<char>) -> Seq<char> {
    s.map_values(|c: char| lower_char(c))
}

/// A character allowed in an HTTP header name: the RFC 7230 token characters,
/// with uppercase letters allowed and folded to lowercase on parsing.
pub open spec fn header_name_char(c: char) -> bool {
    let u = c as u32;
    ||| u == 33  // !
    ||| 35 <= u && u <= 39  // # $ % & '
    ||| u == 42 || u == 43  // * +
    ||| u == 45 || u == 46  // - .
    ||| 48 <= u && u <= 57  // 0-9
    ||| 65 <= u && u <= 90  // A-Z, canonicalized to lowercase
    ||| 94 <= u && u <= 96  // ^ _ `
    ||| 97 <= u && u <= 122  // a-z
    ||| u == 124 || u == 126  // | ~
}

/// A syntactically valid header name: one to 65535 token characters.
pub open spec fn valid_header_name(s: Seq<char>) -> bool {
    &&& 1 <= s.len() <= 65535
    &&& forall|i: int| 0 <= i < s.len() ==> header_name_char(#[trigger] s[i])
}

/// A character allowed in an HTTP header value: tab, or anything at or above
/// the space that is not DEL.
pub open spec fn header_value_char(c: char) -> bool {
    let u = c as u32;
    u == 9 || (32 <= u && u != 127)
}

/// A syntactically valid header value.
pub open spec fn valid_header_value(s: Seq<char>) -> bool {
    forall|i: int| 0 <= i < s.len() ==> header_value_char(#[trigger] s[i])
}

/// A (name, value) pair that header construction accepts.
pub open spec fn entry_valid(p: (Seq<char>, Seq<char>)) -> bool {
    valid_header_name(p.0) && valid_header_value(p.1)
}

/// Name of the extension-negotiation header.
pub open spec fn ext_name() -> Seq<char> {
    "Sec-WebSocket-Extensions"@
}

/// Value advertising permessage-deflate when the extension flag is enabled.
pub open spec fn ext_value() -> Seq<char> {
    "permessage-deflate; client_max_window_bits"@
}

/// Name of the extension-negotiation header.
pub fn extension_header_name() -> (r: &'static str)
    ensures
        r@ == ext_name(),
{
    "Sec-WebSocket-Extensions"
}

/// Value advertising permessage-deflate when the extension flag is enabled.
pub fn extension_header_value() -> (r: &'static str)
    ensures
        r@ == ext_value(),
{
    "permessage-deflate; client_max_window_bits"
}

/// Relies on http::header::HeaderName::from_bytes: a name parses exactly
/// when it consists of 1 to 65535 token characters (uppercase letters
/// folded), and parsing yields the ASCII-lowercase canonical name.
#[verifier::external_body]
fn parse_header_name(s: &str) -> (r: Option<String>)
    ensures
        r is Some <==> valid_header_name(s@),
        r matches Some(c) ==> c@ == canonical(s@),
{
    match http::header::HeaderName::from_bytes(s.as_bytes()) {
        Ok(name) => Some(name.as_str().to_string()),
        Err(_) => None,
    }
}

/// Relies on http::header::HeaderValue::from_str: a value parses exactly
/// when every byte is 32..=255 except DEL, or tab.
#[verifier::external_body]
fn check_header_value(s: &str) -> (r: bool)
    ensures
        r == valid_header_value(s@),
{
    http::header::HeaderValue::from_str(s).is_ok()
}

/// Which half of a header entry failed validation.
#[derive(Clone, Copy, Debug, PartialEq, Eq, Structural)]
pub enum HeaderProblem {
    InvalidName,
    InvalidValue,
}

/// A rejected header entry: establishment aborts with `HeaderError`, naming
/// the offending key.
#[derive(Debug)]
pub struct HeaderFailure {
    pub key: String,
    pub problem: HeaderProblem,
}

impl HeaderFailure {
    /// Every header failure is reported under the `HeaderError` kind.
    pub fn kind(&self) -> (e: WebSocketError)
        ensures
            e == WebSocketError::HeaderError,
    {
        WebSocketError::HeaderError
    }
}

/// The extension header entry that precedes the user headers when the
/// extension flag is enabled.
pub open spec fn extension_prefix(enable: bool) -> Seq<(Seq<char>, Seq<char>)> {
    if enable {
        seq![(ext_name(), ext_value())]
    } else {
        Seq::empty()
    }
}

/// The ordered header insertions applied to the upgrade request: the
/// extension header first (when enabled), then the user entries in order,
/// so a later insertion of the same name overwrites an earlier one.
pub open spec fn plan_model(user: Seq<(Seq<char>, Seq<char>)>, enable: bool) -> Seq<
    (Seq<char>, Seq<char>),
> {
    extension_prefix(enable) + user
}

/// The value a header name ends up with after the insertions in `hs` are
/// applied in order to an empty header map: the last entry whose canonical
/// name is `k` wins; `None` when no entry has that name.
pub open spec fn lookup(hs: Seq<(Seq<char>, Seq<char>)>, k: Seq<char>) -> Option<Seq<char>>
    decreases hs.len(),
{
    if hs.len() == 0 {
        None
    } else if canonical(hs.last().0) == k {
        Some(hs.last().1)
    } else {
        lookup(hs.drop_last(), k)
    }
}

/// Appending one insertion either takes effect for its own name or leaves
/// every other name's value unchanged.
pub proof fn lemma_lookup_push(
    hs: Seq<(Seq<char>, Seq<char>)>,
    p: (Seq<char>, Seq<char>),
    k: Seq<char>,
)
    ensures
        lookup(hs.push(p), k) == if canonical(p.0) == k {
            Some(p.1)
        } else {
            lookup(hs, k)
        },
{
    assert(hs.push(p).last() == p);
    assert(hs.push(p).drop_last() =~= hs);
}

/// A lookup over concatenated insertions is decided by the later block
/// when it knows the name, and by the earlier block otherwise.
pub proof fn lemma_lookup_concat(
    pre: Seq<(Seq<char>, Seq<char>)>,
    user: Seq<(Seq<char>, Seq<char>)>,
    k: Seq<char>,
)
    ensures
        lookup(pre + user, k) == if lookup(user, k) is Some {
            lookup(user, k)
        } else {
            lookup(pre, k)
        },
    decreases user.len(),
{
    if user.len() == 0 {
        assert(pre + user =~= pre);
    } else {
        let c = pre + user;
        assert(c.last() == user.last());
        if canonical(user.last().0) == k {
        } else {
            assert(c.drop_last() =~= pre + user.drop_last());
            lemma_lookup_concat(pre, user.drop_last(), k);
        }
    }
}

/// Law: the extension header is inserted before the user headers are
/// applied, so a user-supplied header always takes effect: for any name it
/// carries, the user's (last) value wins over the extension entry; and with
/// the flag enabled the extension header is present with its advertised
/// value whenever no user entry overrides it. Without the flag the plan is
/// exactly the user entries.
pub proof fn lemma_user_header_wins(user: Seq<(Seq<char>, Seq<char>)>, k: Seq<char>)
    ensures
        lookup(user, k) is Some ==> lookup(plan_model(user, true), k) == lookup(user, k),
        lookup(user, canonical(ext_name())) is None ==> lookup(
            plan_model(user, true),
            canonical(ext_name()),
        ) == Some(ext_value()),
        lookup(plan_model(user, false), k) == lookup(user, k),
{
    let pre = extension_prefix(true);
    lemma_lookup_concat(pre, user, k);
    lemma_lookup_concat(pre, user, canonical(ext_name()));
    lemma_lookup_concat(extension_prefix(false), user, k);
    assert(pre.last() == (ext_name(), ext_value()));
    assert(pre.drop_last() =~= Seq::<(Seq<char>, Seq<char>)>::empty());
    assert(lookup(pre, canonical(ext_name())) == Some(ext_value()));
}

/// The extension header's own name is a valid header name, so a plan built
/// from valid user entries has only valid names and can be resolved.
pub proof fn lemma_ext_name_valid()
    ensures
        valid_header_name(ext_name()),
        valid_header_value(ext_value()),
{
    reveal_strlit("Sec-WebSocket-Extensions");
    reveal_strlit("permessage-deflate; client_max_window_bits");
    assert forall|i: int| 0 <= i < ext_name().len() implies header_name_char(
        #[trigger] ext_name()[i],
    ) by {
        let c = ext_name()[i];
        assert(header_name_char(c));
    }
    assert forall|i: int| 0 <= i < ext_value().len() implies header_value_char(
        #[trigger] ext_value()[i],
    ) by {
        let c = ext_value()[i];
        assert(header_value_char(c));
    }
}

/// Every name in a plan built from valid user entries is valid.
pub proof fn lemma_plan_names_valid(user: Seq<(Seq<char>, Seq<char>)>, enable: bool)
    requires
        forall|j: int| 0 <= j < user.len() ==> entry_valid(#[trigger] user[j]),
    ensures
        forall|j: int|
            0 <= j < plan_model(user, enable).len() ==> valid_header_name(
                (#[trigger] plan_model(user, enable)[j]).0,
            ),
{
    lemma_ext_name_valid();
    assert forall|j: int| 0 <= j < plan_model(user, enable).len() implies valid_header_name(
        (#[trigger] plan_model(user, enable)[j]).0,
    ) by {
        let pre = extension_prefix(enable);
        if j < pre.len() {
            assert(plan_model(user, enable)[j] == (ext_name(), ext_value()));
        } else {
            assert(plan_model(user, enable)[j] == user[j - pre.len()]);
            assert(entry_valid(user[j - pre.len()]));
        }
    }
}

/// The failure names the first entry (in given order) whose name or value
/// is invalid, and says which half was at fault.
pub open spec fn failure_names_first_invalid(
    hs: Seq<(Seq<char>, Seq<char>)>,
    key: Seq<char>,
    problem: HeaderProblem,
) -> bool {
    exists|i: int|
        {
            &&& 0 <= i < hs.len()
            &&& !entry_valid(#[trigger] hs[i])
            &&& forall|j: int| 0 <= j < i ==> entry_valid(#[trigger] hs[j])
            &&& key == hs[i].0
            &&& problem == (if !valid_header_name(hs[i].0) {
                HeaderProblem::InvalidName
            } else {
                HeaderProblem::InvalidValue
            })
        }
}

/// Validate the configured headers and lay out the insertion order for the
/// upgrade request: the extension header first when the flag is enabled,
/// then the user entries in their given order. The first entry with an
/// invalid name or value aborts the plan, naming the offending key.
pub fn plan_headers(user: &Vec<(String, String)>, enable_extension: bool) -> (r: Result<
    Vec<(String, String)>,
    HeaderFailure,
>)
    ensures
        r matches Ok(plan) ==> {
            &&& plan.deep_view() == plan_model(user.deep_view(), enable_extension)
            &&& forall|j: int|
                0 <= j < user.deep_view().len() ==> entry_valid(#[trigger] user.deep_view()[j])
            &&& forall|j: int|
                0 <= j < plan.deep_view().len() ==> valid_header_name(
                    (#[trigger] plan.deep_view()[j]).0,
                )
        },
        r matches Err(f) ==> failure_names_first_invalid(user.deep_view(), f.key@, f.problem),
{
    let ghost hs = user.deep_view();
    let mut plan: Vec<(String, String)> = Vec::new();
    if enable_extension {
        plan.push((extension_header_name().to_owned(), extension_header_value().to_owned()));
    }
    proof {
        assert(plan.deep_view() =~= plan_model(hs.take(0), enable_extension));
    }
    let mut i: usize = 0;
    while i < user.len()
        invariant
            i <= user.len(),
            hs == user.deep_view(),
            forall|j: int| 0 <= j < i ==> entry_valid(#[trigger] hs[j]),
            plan.deep_view() == plan_model(hs.take(i as int), enable_extension),
        decreases user.len() - i,
    {
        proof {
            assert(hs[i as int] == (user@[i as int].0@, user@[i as int].1@));
        }
        if parse_header_name(user[i].0.as_str()).is_none() {
            return Err(
                HeaderFailure { key: user[i].0.clone(), problem: HeaderProblem::InvalidName },
            );
        }
        if !check_header_value(user[i].1.as_str()) {
            return Err(
                HeaderFailure { key: user[i].0.clone(), problem: HeaderProblem::InvalidValue },
            );
        }
        let entry_key = user[i].0.clone();
        let entry_value = user[i].1.clone();
        let ghost pre_dv = plan.deep_view();
        plan.push((entry_key, entry_value));
        proof {
            assert(plan.deep_view() =~= pre_dv.push(hs[i as int]));
            assert(hs.take(i + 1 as int) =~= hs.take(i as int).push(hs[i as int]));
            assert(extension_prefix(enable_extension) + hs.take(i as int).push(hs[i as int]) =~= (
            extension_prefix(enable_extension) + hs.take(i as int)).push(hs[i as int]));
        }
        i += 1;
    }
    proof {
        assert(hs.take(user.len() as int) =~= hs);
        lemma_plan_names_valid(hs, enable_extension);
    }
    Ok(plan)
}

/// The value the upgrade request ends up carrying for `name` once the
/// planned insertions are applied in order — the last entry with the same
/// canonical name wins. `None` when the plan never inserts that name.
pub fn resolve_header(plan: &Vec<(String, String)>, name: &str) -> (r: Option<String>)
    requires
        valid_header_name(name@),
        forall|j: int|
            0 <= j < plan.deep_view().len() ==> valid_header_name(
                (#[trigger] plan.deep_view()[j]).0,
            ),
    ensures
        ({
            let l = lookup(plan.deep_view(), canonical(name@));
            match r {
                Some(v) => l matches Some(lv) && v@ == lv,
                None => l is None,
            }
        }),
{
    let ghost hs = plan.deep_view();
    let target = match parse_header_name(name) {
        Some(t) => t,
        None => {
            proof {
                assert(false);
            }
            unreached()
        },
    };
    let mut found: Option<String> = None;
    let mut i: usize = 0;
    proof {
        assert(hs.take(0) =~= Seq::<(Seq<char>, Seq<char>)>::empty());
    }
    while i < plan.len()
        invariant
            i <= plan.len(),
            hs == plan.deep_view(),
            target@ == canonical(name@),
            forall|j: int| 0 <= j < hs.len() ==> valid_header_name((#[trigger] hs[j]).0),
            ({
                let l = lookup(hs.take(i as int), canonical(name@));
                match found {
                    Some(v) => l matches Some(lv) && v@ == lv,
                    None => l is None,
                }
            }),
        decreases plan.len() - i,
    {
        proof {
            assert(hs[i as int] == (plan@[i as int].0@, plan@[i as int].1@));
        }
        let entry_name = match parse_header_name(plan[i].0.as_str()) {
            Some(t) => t,
            None => {
                proof {
                    assert(false);
                }
                unreached()
            },
        };
        if entry_name == target {
            found = Some(plan[i].1.clone());
        }
        proof {
            assert(hs.take(i + 1 as int) =~= hs.take(i as int).push(hs[i as int]));
            lemma_lookup_push(hs.take(i as int), hs[i as int], canonical(name@));
        }
        i += 1;
    }
    proof {
        assert(hs.take(plan.len() as int) =~= hs);
    }
    found
}

} // verus!
