//! Address resolution: which texts can name a host at all, and which
//! endpoint a lookup's answer stands for.

use vstd::prelude::*;
use vstd::string::*;
use crate::outcome::{Endpoint, FailureReason, FailureReasonView};

verus! {

/// The longest host name, in characters.
pub const MAX_HOST_LEN: usize = 253;

/// The longest label of a host name, in characters.
pub const MAX_LABEL_LEN: usize = 63;

/// The longest IPv6 literal, in characters.
pub const MAX_IPV6_LEN: usize = 45;

pub open spec fn is_letter(c: char) -> bool {
    ('a' <= c && c <= 'z') || ('A' <= c && c <= 'Z')
}

pub open spec fn is_digit(c: char) -> bool {
    '0' <= c && c <= '9'
}

pub open spec fn is_hex_digit(c: char) -> bool {
    is_digit(c) || ('a' <= c && c <= 'f') || ('A' <= c && c <= 'F')
}

/// A character that may begin or end a label of a host name.
pub open spec fn is_label_edge(c: char) -> bool {
    is_letter(c) || is_digit(c) || c == '_'
}

/// A character that may occur in a host name.
pub open spec fn is_host_char(c: char) -> bool {
    is_label_edge(c) || c == '-' || c == '.'
}

/// A character that may occur in an IPv6 literal.
pub open spec fn is_ipv6_char(c: char) -> bool {
    is_hex_digit(c) || c == ':' || c == '.'
}

/// A character that may occur in an address of either form.
pub open spec fn is_address_char(c: char) -> bool {
    is_host_char(c) || is_ipv6_char(c)
}

/// No dot stands at the positions `from..to` of `s`.
pub open spec fn dot_free(s: Seq<char>, from: int, to: int) -> bool {
    forall|k: int| from <= k < to ==> s[k] != '.'
}

/// The `MAX_LABEL_LEN + 1` characters of `s` that start at `at` hold a dot,
/// so no label covers them all.
pub open spec fn label_ends_within(s: Seq<char>, at: int) -> bool {
    !dot_free(s, at, at + MAX_LABEL_LEN + 1)
}

/// The dot at position `i` of `s` separates two labels, or closes the name.
pub open spec fn dot_in_place(s: Seq<char>, i: int) -> bool {
    &&& i >= 1
    &&& is_label_edge(s[i - 1])
    &&& (i == s.len() - 1 || is_label_edge(s[i + 1]))
}

/// `s` is a host name: labels of letters, digits, `_` and `-`, separated by
/// single dots, each of 1 to 63 characters with no `-` at either end; the
/// whole at most 253 characters, a closing dot allowed. A dotted IPv4
/// address is of this form.
pub open spec fn is_hostname(s: Seq<char>) -> bool {
    &&& 1 <= s.len() <= MAX_HOST_LEN
    &&& forall|i: int| 0 <= i < s.len() ==> is_host_char(#[trigger] s[i])
    &&& is_label_edge(s[0])
    &&& (is_label_edge(s[s.len() - 1]) || s[s.len() - 1] == '.')
    &&& forall|i: int| 0 <= i < s.len() && #[trigger] s[i] == '.' ==> dot_in_place(s, i)
    &&& forall|at: int|
        0 <= at && at + MAX_LABEL_LEN + 1 <= s.len() ==> #[trigger] label_ends_within(s, at)
}

/// `s` has the shape of an IPv6 literal: hexadecimal digits, colons and
/// dots only, at least two colons, at most 45 characters.
pub open spec fn is_ipv6_like(s: Seq<char>) -> bool {
    &&& s.len() <= MAX_IPV6_LEN
    &&& forall|i: int| 0 <= i < s.len() ==> is_ipv6_char(#[trigger] s[i])
    &&& exists|i: int, j: int|
        0 <= i < j < s.len() && #[trigger] s[i] == ':' && #[trigger] s[j] == ':'
}

/// `s` can be handed to the system's resolver: it is a host name or has the
/// shape of an IPv6 literal.
pub open spec fn is_resolvable_form(s: Seq<char>) -> bool {
    is_hostname(s) || is_ipv6_like(s)
}

/// A text that is empty, or holds a character that no address holds, is in
/// no resolvable form.
pub proof fn lemma_invalid_characters_not_resolvable(s: Seq<char>)
    requires
        s.len() == 0 || exists|i: int| 0 <= i < s.len() && !is_address_char(#[trigger] s[i]),
    ensures
        !is_resolvable_form(s),
{
    if s.len() > 0 {
        let i = choose|i: int| 0 <= i < s.len() && !is_address_char(#[trigger] s[i]);
        assert(!is_host_char(s[i]));
        assert(!is_ipv6_char(s[i]));
    }
}

fn char_at(s: &str, i: usize) -> (c: char)
    requires
        is_ascii(s),
        i < s@.len(),
    ensures
        c == s@[i as int],
{
    let b: u8 = s.get_ascii(i);
    b as char
}

fn is_label_edge_char(c: char) -> (yes: bool)
    ensures
        yes == is_label_edge(c),
{
    ('a' <= c && c <= 'z') || ('A' <= c && c <= 'Z') || ('0' <= c && c <= '9') || c == '_'
}

fn is_ipv6_character(c: char) -> (yes: bool)
    ensures
        yes == is_ipv6_char(c),
{
    ('0' <= c && c <= '9') || ('a' <= c && c <= 'f') || ('A' <= c && c <= 'F') || c == ':'
        || c == '.'
}

fn scan_hostname(s: &str) -> (ok: bool)
    requires
        is_ascii(s),
    ensures
        ok == is_hostname(s@),
{
    let n: usize = s.unicode_len();
    if n == 0 || n > MAX_HOST_LEN {
        return false;
    }
    let mut i: usize = 0;
    let mut run: usize = 0;
    let mut prev_edge: bool = false;
    let mut prev_dot: bool = false;
    while i < n
        invariant
            n == s@.len(),
            1 <= n <= MAX_HOST_LEN,
            is_ascii(s),
            i <= n,
            forall|k: int| 0 <= k < i ==> is_host_char(#[trigger] s@[k]),
            i > 0 ==> is_label_edge(s@[0]),
            i > 0 ==> prev_edge == is_label_edge(s@[i - 1]),
            i > 0 ==> prev_dot == (s@[i - 1] == '.'),
            i == 0 ==> !prev_edge && !prev_dot,
            forall|k: int|
                0 <= k < i && #[trigger] s@[k] == '.' ==> k >= 1 && is_label_edge(s@[k - 1]) && (k
                    == i - 1 || is_label_edge(s@[k + 1])),
            run <= MAX_LABEL_LEN,
            run <= i,
            dot_free(s@, i - run, i as int),
            run < i ==> s@[i - run - 1] == '.',
            forall|at: int|
                0 <= at && at + MAX_LABEL_LEN + 1 <= i ==> #[trigger] label_ends_within(s@, at),
        decreases n - i,
    {
        let c: char = char_at(s, i);
        if c == '.' {
            if !prev_edge {
                assert(!is_label_edge(s@[0]) || !dot_in_place(s@, i as int));
                return false;
            }
            run = 0;
            prev_edge = false;
            prev_dot = true;
            assert(!dot_free(s@, i - MAX_LABEL_LEN, i + 1));
        } else {
            let edge: bool = is_label_edge_char(c);
            if !edge && c != '-' {
                assert(!is_host_char(s@[i as int]));
                return false;
            }
            if !edge && (i == 0 || prev_dot) {
                assert(i > 0 ==> !dot_in_place(s@, i - 1));
                return false;
            }
            if run == MAX_LABEL_LEN {
                assert(dot_free(s@, i - MAX_LABEL_LEN, i + 1));
                assert(!label_ends_within(s@, i - MAX_LABEL_LEN));
                return false;
            }
            proof {
                if run < i {
                    assert(s@[i - run - 1] == '.');
                    assert(!dot_free(s@, i - MAX_LABEL_LEN, i + 1));
                }
            }
            run = run + 1;
            prev_edge = edge;
            prev_dot = false;
        }
        i = i + 1;
    }
    prev_edge || prev_dot
}

fn scan_ipv6_like(s: &str) -> (ok: bool)
    requires
        is_ascii(s),
    ensures
        ok == is_ipv6_like(s@),
{
    let n: usize = s.unicode_len();
    if n > MAX_IPV6_LEN {
        return false;
    }
    let mut i: usize = 0;
    let mut colons: u8 = 0;
    let ghost mut first: int = 0;
    let ghost mut second: int = 0;
    while i < n
        invariant
            n == s@.len(),
            n <= MAX_IPV6_LEN,
            is_ascii(s),
            i <= n,
            forall|k: int| 0 <= k < i ==> is_ipv6_char(#[trigger] s@[k]),
            colons <= 2,
            colons == 0 ==> forall|k: int| 0 <= k < i ==> #[trigger] s@[k] != ':',
            colons == 1 ==> 0 <= first < i && s@[first] == ':' && forall|k: int|
                0 <= k < i && k != first ==> #[trigger] s@[k] != ':',
            colons == 2 ==> 0 <= first < second < i && s@[first] == ':' && s@[second] == ':',
        decreases n - i,
    {
        let c: char = char_at(s, i);
        if !is_ipv6_character(c) {
            assert(!is_ipv6_char(s@[i as int]));
            return false;
        }
        if c == ':' {
            if colons == 0 {
                proof {
                    first = i as int;
                }
                colons = 1;
            } else if colons == 1 {
                proof {
                    second = i as int;
                }
                colons = 2;
            }
        }
        i = i + 1;
    }
    colons == 2
}

/// Whether `address` can be handed to the system's resolver.
pub fn is_resolvable(address: &str) -> (yes: bool)
    ensures
        yes == is_resolvable_form(address@),
{
    if !address.is_ascii() {
        proof {
            let s = address@;
            let i = choose|i: int| 0 <= i < s.len() && !('\0' <= #[trigger] s[i] <= '\u{7f}');
            assert(!is_address_char(s[i]));
            lemma_invalid_characters_not_resolvable(s);
        }
        return false;
    }
    scan_hostname(address) || scan_ipv6_like(address)
}

/// The error text for an address that is not in a resolvable form.
pub open spec fn invalid_address_text(address: Seq<char>) -> Seq<char> {
    "Invalid address: "@ + address
}

/// The error text for an address for which the resolver found no endpoint.
pub open spec fn unresolved_text(address: Seq<char>) -> Seq<char> {
    "Could not resolve address: "@ + address
}

/// The error text for an address on which the resolver reported `error`.
pub open spec fn resolver_error_text(address: Seq<char>, error: Seq<char>) -> Seq<char> {
    "Could not resolve address: "@ + address + ". Error: "@ + error
}

/// The mathematical value of a resolver's answer: the endpoints in the
/// resolver's order, or the resolver's error text.
pub open spec fn lookup_view(answer: Result<Vec<Endpoint>, String>) -> Result<
    Seq<Endpoint>,
    Seq<char>,
> {
    match answer {
        Ok(endpoints) => Ok(endpoints@),
        Err(error) => Err(error@),
    }
}

/// The mathematical value of a resolution's result.
pub open spec fn resolution_view(result: Result<Endpoint, FailureReason>) -> Result<
    Endpoint,
    FailureReasonView,
> {
    match result {
        Ok(endpoint) => Ok(endpoint),
        Err(reason) => Err(reason@),
    }
}

/// What resolving `address` gives when the system's resolver answers
/// `answer`: the first endpoint of the answer; `InvalidAddress` where the
/// text is in no resolvable form, whatever the answer; `ResolutionFailed`
/// where the text is well formed and the answer holds no endpoint.
pub open spec fn resolve_spec(
    address: Seq<char>,
    answer: Result<Seq<Endpoint>, Seq<char>>,
) -> Result<Endpoint, FailureReasonView> {
    if !is_resolvable_form(address) {
        Err(FailureReasonView::InvalidAddress(invalid_address_text(address)))
    } else {
        match answer {
            Ok(endpoints) => if endpoints.len() > 0 {
                Ok(endpoints[0])
            } else {
                Err(FailureReasonView::ResolutionFailed(unresolved_text(address)))
            },
            Err(error) => Err(
                FailureReasonView::ResolutionFailed(resolver_error_text(address, error)),
            ),
        }
    }
}

/// The failure for an address that is not in a resolvable form.
pub fn invalid_address(address: &str) -> (reason: FailureReason)
    ensures
        reason@ == FailureReasonView::InvalidAddress(invalid_address_text(address@)),
{
    FailureReason::InvalidAddress(String::from_str("Invalid address: ").concat(address))
}

/// Resolves `address` to one endpoint, given the system resolver's answer
/// for it: the first endpoint wins.
pub fn resolve(address: &str, answer: &Result<Vec<Endpoint>, String>) -> (result: Result<
    Endpoint,
    FailureReason,
>)
    ensures
        resolution_view(result) == resolve_spec(address@, lookup_view(*answer)),
{
    if !is_resolvable(address) {
        return Err(invalid_address(address));
    }
    match answer {
        Ok(endpoints) => {
            if endpoints.len() > 0 {
                Ok(endpoints[0])
            } else {
                let text = String::from_str("Could not resolve address: ").concat(address);
                Err(FailureReason::ResolutionFailed(text))
            }
        },
        Err(error) => {
            let text = String::from_str("Could not resolve address: ").concat(address).concat(
                ". Error: ",
            ).concat(error.as_str());
            Err(FailureReason::ResolutionFailed(text))
        },
    }
}

/// Resolving a text that is empty, or that holds a character that no
/// address holds, gives `InvalidAddress` and never an endpoint, whatever the
/// resolver would answer.
pub proof fn lemma_invalid_characters_rejected(
    address: Seq<char>,
    answer: Result<Seq<Endpoint>, Seq<char>>,
)
    requires
        address.len() == 0 || exists|i: int|
            0 <= i < address.len() && !is_address_char(#[trigger] address[i]),
    ensures
        resolve_spec(address, answer) == Err::<Endpoint, FailureReasonView>(
            FailureReasonView::InvalidAddress(invalid_address_text(address)),
        ),
{
    lemma_invalid_characters_not_resolvable(address);
}

/// A well-formed address for which the resolver has no endpoint fails with
/// `ResolutionFailed`, never with another reason and never with a success.
pub proof fn lemma_no_endpoint_is_resolution_failure(
    address: Seq<char>,
    answer: Result<Seq<Endpoint>, Seq<char>>,
)
    requires
        is_resolvable_form(address),
        answer matches Ok(endpoints) ==> endpoints.len() == 0,
    ensures
        resolve_spec(address, answer) matches Err(reason) && reason is ResolutionFailed,
{
}

} // verus!
