//! Account identifiers: validity and the names derived from them.
use vstd::prelude::*;
use vstd::string::*;

verus! {

/// A character that separates the parts of an account id.
pub open spec fn is_separator(c: char) -> bool {
    c == '-' || c == '_' || c == '.'
}

/// A character that may appear in an account id.
pub open spec fn is_account_char(c: char) -> bool {
    ('a' <= c && c <= 'z') || ('0' <= c && c <= '9') || is_separator(c)
}

/// A well-formed account id: 2 to 64 characters from `a-z`, `0-9`, `-`, `_`
/// and `.`, neither starting nor ending with a separator, and with no two
/// separators side by side.
pub open spec fn valid_account_id(s: Seq<char>) -> bool {
    &&& 2 <= s.len() <= 64
    &&& forall|i: int| 0 <= i < s.len() ==> is_account_char(#[trigger] s[i])
    &&& !is_separator(s[0])
    &&& !is_separator(s[s.len() - 1])
    &&& forall|i: int| 0 <= i < s.len() - 1 ==> !(is_separator(#[trigger] s[i]) && is_separator(s[i + 1]))
}

/// Relies on `near_sdk::env::is_valid_account_id`, which checks the id's
/// bytes against exactly the rule of `valid_account_id` (a character outside
/// ASCII puts a byte above 0x7f in the id and is refused by both).
#[verifier::external_body]
pub(crate) fn account_id_is_valid(s: &String) -> (r: bool)
    ensures
        r == valid_account_id(s@),
{
    near_sdk::env::is_valid_account_id(s.as_bytes())
}

/// The position of the first `.` at or after `i`, or the length of `s`.
pub open spec fn label_end(s: Seq<char>, i: int) -> int
    decreases s.len() - i,
{
    if i < 0 || i >= s.len() {
        s.len() as int
    } else if s[i] == '.' {
        i
    } else {
        label_end(s, i + 1)
    }
}

/// The part of an account id before its first `.` (all of it if there is none).
pub open spec fn label_of(s: Seq<char>) -> Seq<char> {
    s.take(label_end(s, 0))
}

/// The suffix that turns an owner's first label into its pool's name.
pub open spec fn pool_suffix() -> Seq<char> {
    seq!['1', '0', '2', '2', '0', '2']
}

/// The name of the pool that the owner `account` deploys.
pub open spec fn pool_name_of(account: Seq<char>) -> Seq<char> {
    label_of(account) + pool_suffix()
}

/// The sub-account `prefix.parent`.
pub open spec fn subaccount_of(prefix: Seq<char>, parent: Seq<char>) -> Seq<char> {
    prefix + seq!['.'] + parent
}

proof fn lemma_label_end_bounds(s: Seq<char>, i: int)
    requires
        0 <= i <= s.len(),
    ensures
        i <= label_end(s, i) <= s.len(),
    decreases s.len() - i,
{
    if i < s.len() && s[i] != '.' {
        lemma_label_end_bounds(s, i + 1);
    }
}

/// The part of `account` before its first `.`.
pub fn first_label(account: &String) -> (r: String)
    ensures
        r@ == label_of(account@),
{
    let s = account.as_str();
    let n = s.unicode_len();
    let mut i: usize = 0;
    while i < n && s.get_char(i) != '.'
        invariant
            n == s@.len(),
            i <= n,
            label_end(s@, i as int) == label_end(s@, 0),
        decreases n - i,
    {
        i = i + 1;
    }
    proof {
        lemma_label_end_bounds(s@, 0);
    }
    String::from_str(s.substring_char(0, i))
}

/// The name of the pool that the owner `account` deploys: its first label
/// followed by the fixed pool suffix.
pub fn pool_name(account: &String) -> (r: String)
    ensures
        r@ == pool_name_of(account@),
{
    let mut r = first_label(account);
    proof {
        reveal_strlit("102202");
    }
    r.append("102202");
    r
}

/// The sub-account `prefix.parent`.
pub fn subaccount(prefix: &String, parent: &String) -> (r: String)
    ensures
        r@ == subaccount_of(prefix@, parent@),
{
    let mut r = prefix.clone();
    proof {
        reveal_strlit(".");
    }
    r.append(".");
    r.append(parent.as_str());
    r
}

} // verus!
