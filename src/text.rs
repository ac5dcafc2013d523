//! Whitespace handling for slide text: a model of Unicode whitespace, of
//! trimming, and of the normalisation of optional text fields.
use vstd::prelude::*;

verus! {

/// A character with the Unicode property White_Space.
pub open spec fn is_white_space(c: char) -> bool {
    let n = c as u32;
    ||| 0x9 <= n && n <= 0xd
    ||| n == 0x20
    ||| n == 0x85
    ||| n == 0xa0
    ||| n == 0x1680
    ||| 0x2000 <= n && n <= 0x200a
    ||| n == 0x2028
    ||| n == 0x2029
    ||| n == 0x202f
    ||| n == 0x205f
    ||| n == 0x3000
}

/// Text made of whitespace alone (the empty text included).
pub open spec fn is_blank(s: Seq<char>) -> bool {
    forall|i: int| 0 <= i < s.len() ==> is_white_space(#[trigger] s[i])
}

/// The text without its leading whitespace.
pub open spec fn trim_start(s: Seq<char>) -> Seq<char>
    decreases s.len(),
{
    if s.len() > 0 && is_white_space(s[0]) {
        trim_start(s.drop_first())
    } else {
        s
    }
}

/// The text without its trailing whitespace.
pub open spec fn trim_end(s: Seq<char>) -> Seq<char>
    decreases s.len(),
{
    if s.len() > 0 && is_white_space(s.last()) {
        trim_end(s.drop_last())
    } else {
        s
    }
}

/// The text without its leading and trailing whitespace.
pub open spec fn trimmed(s: Seq<char>) -> Seq<char> {
    trim_end(trim_start(s))
}

/// The value of an optional text field.
pub open spec fn optional_view(o: Option<String>) -> Option<Seq<char>> {
    match o {
        Some(s) => Some(s@),
        None => None,
    }
}

/// An optional text with its whitespace trimmed.
pub open spec fn trimmed_optional(o: Option<Seq<char>>) -> Option<Seq<char>> {
    match o {
        Some(s) => Some(trimmed(s)),
        None => None,
    }
}

/// An optional text that is absent where it is blank.
pub open spec fn non_blank_optional(o: Option<Seq<char>>) -> Option<Seq<char>> {
    match o {
        Some(s) => if trimmed(s).len() == 0 {
            None
        } else {
            Some(s)
        },
        None => None,
    }
}

/// How an optional text field is stored: trimmed, and absent where nothing
/// but whitespace was given.
pub open spec fn normalized_optional(o: Option<Seq<char>>) -> Option<Seq<char>> {
    match o {
        Some(s) => if trimmed(s).len() == 0 {
            None
        } else {
            Some(trimmed(s))
        },
        None => None,
    }
}

proof fn lemma_trim_start_shape(s: Seq<char>)
    ensures
        trim_start(s).len() == 0 || !is_white_space(trim_start(s)[0]),
        is_blank(trim_start(s)) ==> is_blank(s),
    decreases s.len(),
{
    if s.len() > 0 && is_white_space(s[0]) {
        let t = s.drop_first();
        lemma_trim_start_shape(t);
        if is_blank(trim_start(s)) {
            assert forall|i: int| 0 <= i < s.len() implies is_white_space(#[trigger] s[i]) by {
                if i > 0 {
                    assert(s[i] == t[i - 1]);
                }
            }
        }
    }
}

proof fn lemma_trim_end_shape(s: Seq<char>)
    ensures
        trim_end(s).len() <= s.len(),
        trim_end(s) == s.subrange(0, trim_end(s).len() as int),
        trim_end(s).len() == 0 || !is_white_space(trim_end(s).last()),
        trim_end(s).len() == 0 ==> is_blank(s),
    decreases s.len(),
{
    if s.len() > 0 && is_white_space(s.last()) {
        let t = s.drop_last();
        lemma_trim_end_shape(t);
        assert(trim_end(t) =~= s.subrange(0, trim_end(t).len() as int));
        if trim_end(s).len() == 0 {
            assert forall|i: int| 0 <= i < s.len() implies is_white_space(#[trigger] s[i]) by {
                if i < s.len() - 1 {
                    assert(s[i] == t[i]);
                }
            }
        }
    } else {
        assert(s == s.subrange(0, s.len() as int));
    }
}

proof fn lemma_blank_trim_start(s: Seq<char>)
    requires
        is_blank(s),
    ensures
        trim_start(s).len() == 0,
    decreases s.len(),
{
    if s.len() > 0 {
        let t = s.drop_first();
        assert forall|i: int| 0 <= i < t.len() implies is_white_space(#[trigger] t[i]) by {
            assert(t[i] == s[i + 1]);
        }
        lemma_blank_trim_start(t);
    }
}

/// Trimmed text is empty, or starts and ends with a character that is not
/// whitespace.
pub proof fn lemma_trimmed_shape(s: Seq<char>)
    ensures
        trimmed(s).len() == 0 || (!is_white_space(trimmed(s)[0]) && !is_white_space(
            trimmed(s).last(),
        )),
{
    let u = trim_start(s);
    lemma_trim_start_shape(s);
    lemma_trim_end_shape(u);
    if trimmed(s).len() > 0 {
        assert(trimmed(s)[0] == u[0]);
    }
}

/// Trimmed text is empty exactly when the text is blank.
pub proof fn lemma_trimmed_empty_iff_blank(s: Seq<char>)
    ensures
        trimmed(s).len() == 0 <==> is_blank(s),
{
    lemma_trim_start_shape(s);
    lemma_trim_end_shape(trim_start(s));
    if is_blank(s) {
        lemma_blank_trim_start(s);
    }
}

/// Trimmed text that is not empty is not blank.
pub proof fn lemma_trimmed_not_blank(s: Seq<char>)
    requires
        trimmed(s).len() > 0,
    ensures
        !is_blank(trimmed(s)),
{
    lemma_trimmed_shape(s);
}

/// Trimming twice is trimming once.
pub proof fn lemma_trimmed_idempotent(s: Seq<char>)
    ensures
        trimmed(trimmed(s)) == trimmed(s),
{
    let r = trimmed(s);
    lemma_trimmed_shape(s);
    if r.len() > 0 {
        assert(trim_start(r) == r);
        assert(trim_end(r) == r);
    } else {
        assert(trim_start(r) == r);
        assert(trim_end(r) == r);
    }
}

/// A trimmed optional text, stripped of what is blank, is its normalised form.
pub proof fn lemma_normalized_optional(o: Option<Seq<char>>)
    ensures
        non_blank_optional(trimmed_optional(o)) == normalized_optional(o),
{
    if let Some(s) = o {
        lemma_trimmed_idempotent(s);
    }
}

/// What is stored for an optional text field is never empty nor blank.
pub proof fn lemma_normalized_not_blank(o: Option<Seq<char>>)
    ensures
        normalized_optional(o) matches Some(t) ==> t.len() > 0 && !is_blank(t),
        o matches Some(s) && is_blank(s) ==> normalized_optional(o) is None,
{
    if let Some(s) = o {
        lemma_trimmed_empty_iff_blank(s);
        if trimmed(s).len() > 0 {
            lemma_trimmed_not_blank(s);
        }
    }
}

/// Text as it is stored: without leading or trailing whitespace.
pub open spec fn is_trimmed(s: Seq<char>) -> bool {
    trimmed(s) == s
}

/// An optional text as it is stored: absent, or trimmed and not blank.
pub open spec fn is_normalized_optional(o: Option<Seq<char>>) -> bool {
    o matches Some(t) ==> t.len() > 0 && !is_blank(t) && is_trimmed(t)
}

/// Trimmed text is stored as it is.
pub proof fn lemma_trimmed_is_trimmed(s: Seq<char>)
    ensures
        is_trimmed(trimmed(s)),
{
    lemma_trimmed_idempotent(s);
}

/// The normalised form of an optional text is in its stored form, and blank
/// text becomes absent.
pub proof fn lemma_normalized_is_normalized(o: Option<Seq<char>>)
    ensures
        is_normalized_optional(normalized_optional(o)),
        o matches Some(s) && is_blank(s) ==> normalized_optional(o) is None,
{
    lemma_normalized_not_blank(o);
    if let Some(s) = o {
        lemma_trimmed_idempotent(s);
    }
}

/// Relies on `str::trim`: the text without leading and trailing characters of
/// the Unicode property White_Space.
#[verifier::external_body]
fn trim_str<'a>(s: &'a str) -> (r: &'a str)
    ensures
        r@ == trimmed(s@),
{
    s.trim()
}

/// The text with its leading and trailing whitespace removed.
pub fn trim_text(s: &str) -> (r: String)
    ensures
        r@ == trimmed(s@),
{
    trim_str(s).to_owned()
}

/// Whether the text is made of whitespace alone.
pub fn is_blank_text(s: &str) -> (r: bool)
    ensures
        r == is_blank(s@),
        r == (trimmed(s@).len() == 0),
{
    proof {
        lemma_trimmed_empty_iff_blank(s@);
    }
    trim_str(s).is_empty()
}

/// An optional text with its whitespace trimmed.
pub fn trim_optional(o: Option<String>) -> (r: Option<String>)
    ensures
        optional_view(r) == trimmed_optional(optional_view(o)),
{
    match o {
        Some(s) => Some(trim_text(s.as_str())),
        None => None,
    }
}

/// An optional text, made absent where it is blank.
pub fn drop_blank(o: Option<String>) -> (r: Option<String>)
    ensures
        optional_view(r) == non_blank_optional(optional_view(o)),
{
    match o {
        Some(s) => if is_blank_text(s.as_str()) {
            None
        } else {
            Some(s)
        },
        None => None,
    }
}

} // verus!
