use vstd::prelude::*;

verus! {

/// The last component of a path, where it is a normal one, as
/// `std::path::Path::file_name` gives it.
pub uninterp spec fn file_name_of(p: Seq<char>) -> Option<Seq<char>>;

/// The path of `name` inside `folder`, as `std::path::Path::join` gives it.
pub uninterp spec fn joined(folder: Seq<char>, name: Seq<char>) -> Seq<char>;

/// The index of the last `.` in `n`, or -1 where it holds none.
pub open spec fn last_dot(n: Seq<char>) -> int
    decreases n.len(),
{
    if n.len() == 0 {
        -1
    } else if n.last() == '.' {
        n.len() - 1
    } else {
        last_dot(n.drop_last())
    }
}

/// The extension of a file name: what follows its last `.`; none where the
/// name is `..`, holds no `.`, or its only `.` is its first character.
pub open spec fn name_extension(n: Seq<char>) -> Option<Seq<char>> {
    let k = last_dot(n);
    if n =~= seq!['.', '.'] || k <= 0 {
        None
    } else {
        Some(n.subrange(k + 1, n.len() as int))
    }
}

/// The extension of a path: that of its file name, none without one.
pub open spec fn extension_of(p: Seq<char>) -> Option<Seq<char>> {
    match file_name_of(p) {
        Some(n) => name_extension(n),
        None => None,
    }
}

/// Relies on `std::path::Path::file_name`: the final component of `p`, or
/// `None` where the path ends in `..` or has no components.
#[verifier::external_body]
pub(crate) fn file_name(p: &str) -> (r: Option<String>)
    ensures
        match r {
            Some(n) => file_name_of(p@) == Some(n@),
            None => file_name_of(p@) is None,
        },
{
    std::path::Path::new(p).file_name().map(|n| n.to_string_lossy().into_owned())
}

/// Relies on `std::path::Path::join`: `name` appended to `folder` as a path.
#[verifier::external_body]
pub(crate) fn join(folder: &str, name: &str) -> (r: String)
    ensures
        r@ == joined(folder@, name@),
{
    std::path::Path::new(folder).join(name).to_string_lossy().into_owned()
}

/// Relies on `std::path::Path::extension`: what follows the last `.` of the
/// file name that `Path::file_name` gives, or `None` where there is no file
/// name, it holds no `.`, or its only `.` is its first character.
#[verifier::external_body]
pub(crate) fn extension(p: &str) -> (r: Option<String>)
    ensures
        match r {
            Some(e) => extension_of(p@) == Some(e@),
            None => extension_of(p@) is None,
        },
{
    std::path::Path::new(p).extension().map(|e| e.to_string_lossy().into_owned())
}

/// `c` is the lower-case ASCII letter `lower`, in either case.
pub open spec fn same_letter(c: char, lower: char) -> bool {
    c == lower || (c as u32) + 32 == lower as u32
}

/// `ext` spells `word` (written in lower case), ignoring ASCII case.
pub open spec fn matches_ignoring_case(ext: Seq<char>, word: Seq<char>) -> bool {
    ext.len() == word.len() && forall|i: int| 0 <= i < ext.len() ==> same_letter(ext[i], word[i])
}

/// The extensions of the image files that are triaged, in lower case.
pub open spec fn image_extensions() -> Seq<Seq<char>> {
    seq![
        seq!['p', 'n', 'g'],
        seq!['j', 'p', 'g'],
        seq!['j', 'p', 'e', 'g'],
        seq!['w', 'e', 'b', 'p'],
        seq!['b', 'm', 'p'],
        seq!['t', 'i', 'f', 'f'],
        seq!['g', 'i', 'f'],
    ]
}

/// `ext` is one of the image extensions, in any case.
pub open spec fn is_image_extension_spec(ext: Seq<char>) -> bool {
    exists|k: int|
        0 <= k < image_extensions().len() && #[trigger] matches_ignoring_case(
            ext,
            image_extensions()[k],
        )
}

/// The path names an image file: its extension is an image extension.
pub open spec fn is_image_path_spec(p: Seq<char>) -> bool {
    match extension_of(p) {
        Some(e) => is_image_extension_spec(e),
        None => false,
    }
}

/// The image paths of `s`, in their order.
pub open spec fn image_paths(s: Seq<Seq<char>>) -> Seq<Seq<char>>
    decreases s.len(),
{
    if s.len() == 0 {
        seq![]
    } else {
        let r = image_paths(s.drop_last());
        if is_image_path_spec(s.last()) {
            r.push(s.last())
        } else {
            r
        }
    }
}

/// The views of a vector of strings.
pub open spec fn views(v: Seq<String>) -> Seq<Seq<char>> {
    v.map_values(|s: String| s@)
}

fn matches_word(ext: &str, word: &str) -> (r: bool)
    ensures
        r == matches_ignoring_case(ext@, word@),
{
    let n = ext.unicode_len();
    if n != word.unicode_len() {
        return false;
    }
    let mut i: usize = 0;
    while i < n
        invariant
            n == ext@.len(),
            n == word@.len(),
            0 <= i <= n,
            forall|j: int| 0 <= j < i ==> same_letter(ext@[j], word@[j]),
        decreases n - i,
    {
        let c = ext.get_char(i);
        let w = word.get_char(i);
        if !(c == w || (c as u32 as u64) + 32 == w as u32 as u64) {
            return false;
        }
        i = i + 1;
    }
    true
}

/// Whether `ext` is one of png, jpg, jpeg, webp, bmp, tiff and gif, in any
/// ASCII case.
pub fn is_image_extension(ext: &str) -> (r: bool)
    ensures
        r == is_image_extension_spec(ext@),
{
    proof {
        reveal_strlit("png");
        reveal_strlit("jpg");
        reveal_strlit("jpeg");
        reveal_strlit("webp");
        reveal_strlit("bmp");
        reveal_strlit("tiff");
        reveal_strlit("gif");
        assert("png"@ =~= image_extensions()[0]);
        assert("jpg"@ =~= image_extensions()[1]);
        assert("jpeg"@ =~= image_extensions()[2]);
        assert("webp"@ =~= image_extensions()[3]);
        assert("bmp"@ =~= image_extensions()[4]);
        assert("tiff"@ =~= image_extensions()[5]);
        assert("gif"@ =~= image_extensions()[6]);
    }
    let r = matches_word(ext, "png") || matches_word(ext, "jpg") || matches_word(ext, "jpeg")
        || matches_word(ext, "webp") || matches_word(ext, "bmp") || matches_word(ext, "tiff")
        || matches_word(ext, "gif");
    proof {
        if is_image_extension_spec(ext@) {
            let k = choose|k: int|
                0 <= k < image_extensions().len() && #[trigger] matches_ignoring_case(
                    ext@,
                    image_extensions()[k],
                );
            assert(0 <= k < 7);
        }
    }
    r
}

/// Whether the path names an image file, by its extension.
pub fn is_image_path(p: &str) -> (r: bool)
    ensures
        r == is_image_path_spec(p@),
{
    match extension(p) {
        Some(e) => is_image_extension(e.as_str()),
        None => false,
    }
}

proof fn lemma_image_paths_are_images(s: Seq<Seq<char>>)
    ensures
        forall|k: int|
            0 <= k < image_paths(s).len() ==> is_image_path_spec(#[trigger] image_paths(s)[k])
                && exists|j: int| 0 <= j < s.len() && s[j] == image_paths(s)[k],
    decreases s.len(),
{
    if s.len() > 0 {
        let r = image_paths(s.drop_last());
        lemma_image_paths_are_images(s.drop_last());
        assert forall|k: int| 0 <= k < image_paths(s).len() implies is_image_path_spec(
            #[trigger] image_paths(s)[k],
        ) && exists|j: int| 0 <= j < s.len() && s[j] == image_paths(s)[k] by {
            if k < r.len() {
                assert(image_paths(s)[k] == r[k]);
                let j = choose|j: int| 0 <= j < s.drop_last().len() && s.drop_last()[j] == r[k];
                assert(s[j] == image_paths(s)[k]);
            } else {
                assert(s[s.len() - 1] == image_paths(s)[k]);
            }
        }
    }
}

/// The image queue of a folder, from the paths of its immediate children in
/// the order they were listed, or from `None` where the folder does not exist.
/// A missing folder gives an empty queue; otherwise the image paths are kept
/// in their order and every other path is left out.
pub fn scan(listing: Option<Vec<String>>) -> (r: Vec<String>)
    ensures
        listing is None ==> r@.len() == 0,
        listing matches Some(v) ==> views(r@) == image_paths(views(v@)),
        forall|k: int| 0 <= k < r@.len() ==> is_image_path_spec(#[trigger] r@[k]@),
        listing matches Some(v) ==> forall|k: int|
            0 <= k < r@.len() ==> exists|j: int| 0 <= j < v@.len() && v@[j]@ == #[trigger] r@[k]@,
{
    let mut r: Vec<String> = Vec::new();
    match listing {
        None => {},
        Some(entries) => {
            let n = entries.len();
            let mut i: usize = 0;
            while i < n
                invariant
                    n == entries.len(),
                    0 <= i <= n,
                    views(r@) == image_paths(views(entries@).take(i as int)),
                decreases n - i,
            {
                let p = &entries[i];
                let keep = is_image_path(p.as_str());
                proof {
                    let s = views(entries@).take(i as int + 1);
                    assert(s.drop_last() =~= views(entries@).take(i as int));
                    assert(s.last() == p@);
                }
                if keep {
                    r.push(p.clone());
                }
                assert(views(r@) =~= image_paths(views(entries@).take(i as int + 1)));
                i = i + 1;
            }
            assert(views(entries@).take(n as int) =~= views(entries@));
            proof {
                lemma_image_paths_are_images(views(entries@));
                assert forall|k: int| 0 <= k < r@.len() implies exists|j: int|
                    0 <= j < entries@.len() && entries@[j]@ == #[trigger] r@[k]@ by {
                    assert(views(r@)[k] == r@[k]@);
                    let j = choose|j: int|
                        0 <= j < views(entries@).len() && views(entries@)[j] == views(r@)[k];
                    assert(entries@[j]@ == views(entries@)[j]);
                }
            }
        },
    }
    proof {
        assert forall|k: int| 0 <= k < r@.len() implies is_image_path_spec(#[trigger] r@[k]@) by {
            assert(views(r@)[k] == r@[k]@);
        }
    }
    r
}

} // verus!
