//! Image references: `[namespace/]repository[:tag]`.
use vstd::prelude::*;

verus! {

/// Index of the first occurrence of `c` in `s`, or `s.len()` when absent.
pub open spec fn first_index(s: Seq<char>, c: char) -> int
    decreases s.len(),
{
    if s.len() == 0 {
        0
    } else if s[0] == c {
        0
    } else {
        1 + first_index(s.drop_first(), c)
    }
}

/// `k` is the first position of `c` in `s` (or `s.len()` when `c` is absent).
pub open spec fn is_first_index(s: Seq<char>, c: char, k: int) -> bool {
    &&& 0 <= k <= s.len()
    &&& forall|j: int| 0 <= j < k ==> s[j] != c
    &&& k < s.len() ==> s[k] == c
}

/// The characterisation of `first_index`.
pub proof fn lemma_first_index(s: Seq<char>, c: char, k: int)
    requires
        is_first_index(s, c, k),
    ensures
        first_index(s, c) == k,
    decreases s.len(),
{
    if s.len() > 0 && s[0] != c {
        let t = s.drop_first();
        assert forall|j: int| 0 <= j < k - 1 implies t[j] != c by {
            assert(s[j + 1] != c);
        }
        if k - 1 < t.len() {
            assert(t[k - 1] == s[k]);
        }
        lemma_first_index(t, c, k - 1);
    }
}

/// `c` does not occur in `s`.
pub open spec fn lacks(s: Seq<char>, c: char) -> bool {
    forall|j: int| 0 <= j < s.len() ==> s[j] != c
}

/// A character that does not occur is found at the end.
pub proof fn lemma_lacks_first_index(s: Seq<char>, c: char)
    requires
        lacks(s, c),
    ensures
        first_index(s, c) == s.len(),
{
    lemma_first_index(s, c, s.len() as int);
}

/// Position of the first `c` in `s`, or the length of `s` when there is none.
pub fn find_char(s: &str, c: char) -> (r: usize)
    ensures
        r as int == first_index(s@, c),
        is_first_index(s@, c, r as int),
{
    let n = s.unicode_len();
    let mut i: usize = 0;
    while i < n
        invariant
            n == s@.len(),
            i <= n,
            forall|j: int| 0 <= j < i ==> s@[j] != c,
        decreases n - i,
    {
        if s.get_char(i) == c {
            proof {
                lemma_first_index(s@, c, i as int);
            }
            return i;
        }
        i = i + 1;
    }
    proof {
        lemma_first_index(s@, c, n as int);
    }
    n
}

/// A parsed image reference. None of the three parts is empty.
pub struct ImageReference {
    pub namespace: String,
    pub repository: String,
    pub tag: String,
}

/// Why an image string does not name an image.
#[derive(Debug, Clone, Copy, PartialEq, Eq, Structural)]
pub enum ImageError {
    EmptyNamespace,
    EmptyRepository,
    EmptyTag,
}

/// The part of an image string before the first `/`, `"library"` when there is none.
pub open spec fn namespace_of(s: Seq<char>) -> Seq<char> {
    let k = first_index(s, '/');
    if k < s.len() {
        s.take(k)
    } else {
        "library"@
    }
}

/// The part of an image string after the first `/`, or the whole string.
pub open spec fn body_of(s: Seq<char>) -> Seq<char> {
    let k = first_index(s, '/');
    if k < s.len() {
        s.skip(k + 1)
    } else {
        s
    }
}

/// The repository: the body up to its first `:`.
pub open spec fn repository_of(s: Seq<char>) -> Seq<char> {
    let b = body_of(s);
    b.take(first_index(b, ':'))
}

/// The tag: the body after its first `:`, `"latest"` when there is none.
pub open spec fn tag_of(s: Seq<char>) -> Seq<char> {
    let b = body_of(s);
    let k = first_index(b, ':');
    if k < b.len() {
        b.skip(k + 1)
    } else {
        "latest"@
    }
}

/// The error that parsing `s` reports, if any.
pub open spec fn image_error(s: Seq<char>) -> Option<ImageError> {
    if namespace_of(s).len() == 0 {
        Some(ImageError::EmptyNamespace)
    } else if repository_of(s).len() == 0 {
        Some(ImageError::EmptyRepository)
    } else if tag_of(s).len() == 0 {
        Some(ImageError::EmptyTag)
    } else {
        None
    }
}

/// The image string names its tag explicitly: its body holds a `:`.
pub open spec fn tag_given(s: Seq<char>) -> bool {
    first_index(body_of(s), ':') < body_of(s).len()
}

/// Whether `image` names its tag explicitly (`repository:tag`), rather than
/// leaving it to default to `latest`.
pub fn has_tag(image: &str) -> (r: bool)
    ensures
        r == tag_given(image@),
{
    let n = image.unicode_len();
    let k = find_char(image, '/');
    let body = if k < n {
        image.substring_char(k + 1, n)
    } else {
        image
    };
    assert(body@ == body_of(image@));
    find_char(body, ':') < body.unicode_len()
}

impl ImageReference {
    /// The reference holds the three parts that parsing `s` gives.
    pub open spec fn parsed_from(&self, s: Seq<char>) -> bool {
        &&& self.namespace@ == namespace_of(s)
        &&& self.repository@ == repository_of(s)
        &&& self.tag@ == tag_of(s)
    }

    /// No part is empty.
    pub open spec fn wf(&self) -> bool {
        &&& self.namespace@.len() > 0
        &&& self.repository@.len() > 0
        &&& self.tag@.len() > 0
    }

    /// Parses `[namespace/]repository[:tag]`: the namespace defaults to
    /// `library`, the tag to `latest`; the namespace ends at the first `/`,
    /// the repository at the first `:` after it.
    pub fn parse(image: &str) -> (r: Result<ImageReference, ImageError>)
        ensures
            match r {
                Ok(img) => image_error(image@).is_none() && img.parsed_from(image@) && img.wf(),
                Err(e) => image_error(image@) == Some(e),
            },
    {
        let n = image.unicode_len();
        let k = find_char(image, '/');
        let (namespace, body) = if k < n {
            (image.substring_char(0, k), image.substring_char(k + 1, n))
        } else {
            proof {
                reveal_strlit("library");
            }
            ("library", image)
        };
        assert(namespace@ == namespace_of(image@));
        assert(body@ == body_of(image@));
        let m = body.unicode_len();
        let j = find_char(body, ':');
        let repository = body.substring_char(0, j);
        let tag = if j < m {
            body.substring_char(j + 1, m)
        } else {
            proof {
                reveal_strlit("latest");
            }
            "latest"
        };
        assert(repository@ == repository_of(image@));
        assert(tag@ == tag_of(image@));
        if namespace.unicode_len() == 0 {
            return Err(ImageError::EmptyNamespace);
        }
        if repository.unicode_len() == 0 {
            return Err(ImageError::EmptyRepository);
        }
        if tag.unicode_len() == 0 {
            return Err(ImageError::EmptyTag);
        }
        Ok(
            ImageReference {
                namespace: String::from_str(namespace),
                repository: String::from_str(repository),
                tag: String::from_str(tag),
            },
        )
    }
}

/// An image string without `/` lies in the `library` namespace, and the
/// whole string up to its first `:` names the repository; without a `:`
/// the whole string is the repository and the tag is `latest`.
pub proof fn lemma_parse_without_namespace(s: Seq<char>)
    requires
        lacks(s, '/'),
    ensures
        namespace_of(s) == "library"@,
        repository_of(s) == s.take(first_index(s, ':')),
        lacks(s, ':') ==> repository_of(s) == s && tag_of(s) == "latest"@,
        s.len() > 0 && lacks(s, ':') ==> image_error(s).is_none(),
{
    lemma_lacks_first_index(s, '/');
    reveal_strlit("library");
    reveal_strlit("latest");
    if lacks(s, ':') {
        lemma_lacks_first_index(s, ':');
        assert(s.take(s.len() as int) == s);
    }
}

/// An image string `ns/rest:tag`, where `ns` holds no `/` and `rest` no `:`,
/// parses to namespace `ns`, repository `rest` (which may hold further `/`)
/// and tag `tag`; when all three are non-empty, parsing succeeds.
pub proof fn lemma_parse_with_tag(ns: Seq<char>, rest: Seq<char>, tag: Seq<char>)
    requires
        lacks(ns, '/'),
        lacks(rest, ':'),
    ensures
        ({
            let s = ns + "/"@ + rest + ":"@ + tag;
            &&& namespace_of(s) == ns
            &&& repository_of(s) == rest
            &&& tag_of(s) == tag
            &&& (ns.len() > 0 && rest.len() > 0 && tag.len() > 0 ==> image_error(s).is_none())
        }),
{
    reveal_strlit("/");
    reveal_strlit(":");
    let s = ns + "/"@ + rest + ":"@ + tag;
    lemma_first_index(s, '/', ns.len() as int);
    assert(s.take(ns.len() as int) == ns);
    let b = s.skip(ns.len() as int + 1);
    assert(b == rest + ":"@ + tag);
    lemma_first_index(b, ':', rest.len() as int);
    assert(b.take(rest.len() as int) == rest);
    assert(b.skip(rest.len() as int + 1) == tag);
}

/// An image string `ns/rest` without `:`, where `ns` holds no `/`, parses to
/// namespace `ns`, repository `rest` and the tag `latest`.
pub proof fn lemma_parse_default_tag(ns: Seq<char>, rest: Seq<char>)
    requires
        lacks(ns, '/'),
        lacks(rest, ':'),
    ensures
        ({
            let s = ns + "/"@ + rest;
            &&& namespace_of(s) == ns
            &&& repository_of(s) == rest
            &&& tag_of(s) == "latest"@
            &&& (ns.len() > 0 && rest.len() > 0 ==> image_error(s).is_none())
        }),
{
    reveal_strlit("/");
    reveal_strlit("latest");
    let s = ns + "/"@ + rest;
    lemma_first_index(s, '/', ns.len() as int);
    assert(s.take(ns.len() as int) == ns);
    let b = s.skip(ns.len() as int + 1);
    assert(b == rest);
    lemma_lacks_first_index(b, ':');
    assert(b.take(rest.len() as int) == rest);
}

} // verus!
