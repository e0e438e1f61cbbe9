use vstd::prelude::*;
use vstd::string::*;

verus! {

/// The two document encodings that corridor bands and CAD exports come in.
#[derive(Clone, Copy, Debug, PartialEq, Eq, Structural)]
pub enum DocumentFormat {
    Yaml,
    Json,
}

/// `s` ends with the characters of `suffix`.
pub open spec fn has_suffix(s: Seq<char>, suffix: Seq<char>) -> bool {
    suffix.len() <= s.len() && s.subrange(s.len() - suffix.len(), s.len() as int) == suffix
}

/// A path names a YAML document when it ends in `.yaml` or `.yml`.
pub open spec fn names_yaml(path: Seq<char>) -> bool {
    has_suffix(path, seq!['.', 'y', 'a', 'm', 'l']) || has_suffix(path, seq!['.', 'y', 'm', 'l'])
}

/// The format in which a document at `path` is read: YAML for the YAML
/// extensions, JSON for everything else.
pub open spec fn spec_document_format(path: Seq<char>) -> DocumentFormat {
    if names_yaml(path) {
        DocumentFormat::Yaml
    } else {
        DocumentFormat::Json
    }
}

fn ends_with_chars(path: &str, len: usize, suffix: &[char]) -> (res: bool)
    requires
        len == path@.len(),
    ensures
        res == has_suffix(path@, suffix@),
{
    let n = suffix.len();
    if n > len {
        return false;
    }
    let start = len - n;
    let mut i: usize = 0;
    while i < n
        invariant
            n == suffix@.len(),
            start + n == len,
            len == path@.len(),
            i <= n,
            forall|j: int| 0 <= j < i ==> path@[start + j] == suffix@[j],
        decreases n - i,
    {
        if path.get_char(start + i) != suffix[i] {
            assert(path@.subrange(start as int, len as int)[i as int] != suffix@[i as int]);
            return false;
        }
        i = i + 1;
    }
    assert(path@.subrange(start as int, len as int) =~= suffix@);
    true
}

/// Chooses the decoder for the document at `path` from its extension.
pub fn document_format(path: &str) -> (res: DocumentFormat)
    ensures
        res == spec_document_format(path@),
{
    let len = path.unicode_len();
    let yaml: [char; 5] = ['.', 'y', 'a', 'm', 'l'];
    let yml: [char; 4] = ['.', 'y', 'm', 'l'];
    assert(yaml@ =~= seq!['.', 'y', 'a', 'm', 'l']);
    assert(yml@ =~= seq!['.', 'y', 'm', 'l']);
    if ends_with_chars(path, len, yaml.as_slice()) || ends_with_chars(path, len, yml.as_slice()) {
        DocumentFormat::Yaml
    } else {
        DocumentFormat::Json
    }
}

} // verus!
