use vstd::prelude::*;

verus! {

/// Index of the last occurrence of `c` in `s`, or -1 when `c` does not occur.
pub open spec fn last_index_of(s: Seq<char>, c: char) -> int
    decreases s.len(),
{
    if s.len() == 0 {
        -1
    } else if s.last() == c {
        s.len() - 1
    } else {
        last_index_of(s.drop_last(), c)
    }
}

/// The part of a path after its last '/', or the whole path when it has none.
pub open spec fn display_name(path: Seq<char>) -> Seq<char> {
    path.subrange(last_index_of(path, '/') + 1, path.len() as int)
}

/// `k` is the last position of `c` in `s` (or -1) when nothing after it is `c`.
proof fn lemma_last_index_of(s: Seq<char>, c: char, k: int)
    requires
        -1 <= k < s.len(),
        k >= 0 ==> s[k] == c,
        forall|j: int| k < j < s.len() ==> s[j] != c,
    ensures
        last_index_of(s, c) == k,
    decreases s.len(),
{
    if s.len() > 0 && s.len() - 1 != k {
        assert(s.last() != c);
        let t = s.drop_last();
        assert forall|j: int| k < j < t.len() implies t[j] != c by {
            assert(t[j] == s[j]);
        }
        if k >= 0 {
            assert(t[k] == s[k]);
        }
        lemma_last_index_of(t, c, k);
    }
}

/// One selectable image: where it lies and the name shown for it.
#[derive(Debug)]
pub struct Wallpaper {
    path: String,
    name: String,
}

impl Wallpaper {
    /// Builds the item for `path`; its name is the text after the last '/'.
    pub fn new(path: String) -> (r: Wallpaper)
        ensures
            r.path_view() == path@,
            r.name_view() == display_name(path@),
    {
        let len = path.as_str().unicode_len();
        let mut i: usize = len;
        while i > 0
            invariant
                i <= len,
                len == path@.len(),
                forall|j: int| i <= j < len ==> path@[j] != '/',
            ensures
                i > 0 ==> path@[i - 1] == '/',
            decreases i,
        {
            if path.as_str().get_char(i - 1) == '/' {
                break;
            }
            i = i - 1;
        }
        proof {
            lemma_last_index_of(path@, '/', i - 1);
        }
        let name = String::from_str(path.as_str().substring_char(i, len));
        Wallpaper { path, name }
    }

    pub closed spec fn path_view(&self) -> Seq<char> {
        self.path@
    }

    pub closed spec fn name_view(&self) -> Seq<char> {
        self.name@
    }

    /// The path of the image.
    pub fn path(&self) -> (r: &str)
        ensures
            r@ == self.path_view(),
    {
        self.path.as_str()
    }

    /// The name shown for the image.
    pub fn name(&self) -> (r: &str)
        ensures
            r@ == self.name_view(),
    {
        self.name.as_str()
    }
}

/// The paths of the directory entries that could be read as text, in order.
pub open spec fn usable_paths(entries: Seq<Option<String>>) -> Seq<Seq<char>>
    decreases entries.len(),
{
    if entries.len() == 0 {
        Seq::empty()
    } else {
        let front = usable_paths(entries.drop_last());
        match entries.last() {
            Some(p) => front.push(p@),
            None => front,
        }
    }
}

/// The views of a list of strings.
pub open spec fn texts(v: Seq<String>) -> Seq<Seq<char>> {
    v.map_values(|s: String| s@)
}

/// Keeps, in listing order, the entries that were read as a path; an entry
/// that could not be read (`None`) is skipped without failing the rest.
pub fn collect_paths(entries: Vec<Option<String>>) -> (r: Vec<String>)
    ensures
        texts(r@) == usable_paths(entries@),
{
    let mut r: Vec<String> = Vec::new();
    let mut i: usize = 0;
    while i < entries.len()
        invariant
            i <= entries.len(),
            texts(r@) == usable_paths(entries@.subrange(0, i as int)),
        decreases entries.len() - i,
    {
        let ghost before = r@;
        let ghost pre = entries@.subrange(0, i as int);
        let ghost cur = entries@.subrange(0, i + 1);
        assert(cur.drop_last() == pre);
        match &entries[i] {
            Some(p) => {
                r.push(p.clone());
                assert(texts(r@) == texts(before).push(p@));
            },
            None => {},
        }
        i = i + 1;
    }
    assert(entries@.subrange(0, entries.len() as int) == entries@);
    r
}

} // verus!
