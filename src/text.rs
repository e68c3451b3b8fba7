use vstd::prelude::*;
use vstd::string::*;

verus! {

/// What `str::trim` leaves of a text: the text without its leading and
/// trailing white space.
pub uninterp spec fn trimmed(s: Seq<char>) -> Seq<char>;

/// The JSON string literal that serde_json writes for a text: quotes and
/// escapes included.
pub uninterp spec fn json_quoted(s: Seq<char>) -> Seq<char>;

/// The decimal text that `i32`'s `Display` writes for a number.
pub uninterp spec fn decimal_of(n: int) -> Seq<char>;

/// Relies on `str::trim`: the result depends on the characters alone.
#[verifier::external_body]
pub(crate) fn trim_text(s: &str) -> (r: String)
    ensures
        r@ == trimmed(s@),
{
    s.trim().to_string()
}

/// Relies on serde_json's writer for `Value::String`: the quoted, escaped
/// literal of the text.
#[verifier::external_body]
pub(crate) fn quote_json(s: &str) -> (r: String)
    ensures
        r@ == json_quoted(s@),
{
    serde_json::Value::String(s.to_string()).to_string()
}

/// Relies on `i32`'s `Display`: the decimal text of the number.
#[verifier::external_body]
pub(crate) fn decimal_text(n: i32) -> (r: String)
    ensures
        r@ == decimal_of(n as int),
{
    n.to_string()
}

/// Whether two texts hold the same characters.
pub fn same_text(a: &str, b: &str) -> (r: bool)
    ensures
        r == (a@ == b@),
{
    let n = a.unicode_len();
    if n != b.unicode_len() {
        return false;
    }
    let mut i: usize = 0;
    while i < n
        invariant
            n == a@.len(),
            n == b@.len(),
            i <= n,
            forall|k: int| 0 <= k < i ==> a@[k] == b@[k],
        decreases n - i,
    {
        if a.get_char(i) != b.get_char(i) {
            return false;
        }
        i += 1;
    }
    proof {
        assert(a@ =~= b@);
    }
    true
}

/// A text with every leading `>` removed.
pub open spec fn without_marks(s: Seq<char>) -> Seq<char>
    decreases s.len(),
{
    if s.len() > 0 && s[0] == '>' {
        without_marks(s.drop_first())
    } else {
        s
    }
}

/// Removes the prompt marks (`>`) that a line may start with.
pub fn strip_prompt_marks(s: &str) -> (r: &str)
    ensures
        r@ == without_marks(s@),
{
    let n = s.unicode_len();
    let mut i: usize = 0;
    proof {
        assert(s@.subrange(0, n as int) =~= s@);
    }
    while i < n && s.get_char(i) == '>'
        invariant
            n == s@.len(),
            i <= n,
            without_marks(s@) == without_marks(s@.subrange(i as int, n as int)),
        decreases n - i,
    {
        proof {
            assert(s@.subrange(i as int, n as int).drop_first() =~= s@.subrange(
                i + 1,
                n as int,
            ));
        }
        i += 1;
    }
    s.substring_char(i, n)
}

} // verus!
