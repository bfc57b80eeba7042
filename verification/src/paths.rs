//! Unix path rules on raw bytes: the final component of a path, its
//! extension, hidden names, image files, and joining two paths.

use vstd::prelude::*;
use vstd::string::*;
use vstd::utf8::*;

verus! {

/// The byte of `/`.
pub const SLASH: u8 = 47;

/// The byte of `.`.
pub const DOT: u8 = 46;

/// Start of the last `/`-free run at the end of `s` (the index just after the
/// last `/`, or 0).
pub open spec fn seg_start(s: Seq<u8>) -> int
    decreases s.len(),
{
    if s.len() == 0 {
        0
    } else if s.last() == SLASH {
        s.len() as int
    } else {
        seg_start(s.drop_last())
    }
}

/// The last component of `s` that is neither empty nor `.` (trailing
/// separators and `.` components are skipped, as `Path::components` does).
pub open spec fn last_component(s: Seq<u8>) -> Seq<u8>
    decreases s.len(),
{
    if s.len() == 0 {
        seq![]
    } else if s.last() == SLASH {
        last_component(s.drop_last())
    } else {
        let k = seg_start(s);
        if 0 <= k < s.len() && s.subrange(k, s.len() as int) == seq![DOT] {
            last_component(s.subrange(0, k))
        } else {
            s.subrange(k, s.len() as int)
        }
    }
}

/// What `Path::file_name` gives on Unix: the final normal component, none for
/// an empty path, `/`, `.` or a path whose last component is `..`.
pub open spec fn file_name_spec(s: Seq<u8>) -> Option<Seq<u8>> {
    let c = last_component(s);
    if c.len() == 0 || c == seq![DOT, DOT] {
        None
    } else {
        Some(c)
    }
}

/// Trailing `/` separators do not change the final component of a path.
pub proof fn law_file_name_ignores_trailing_slash(p: Seq<u8>)
    ensures
        file_name_spec(p.push(47u8)) == file_name_spec(p),
{
    assert(p.push(47u8).drop_last() =~= p);
}

/// A trailing `/.` component does not change the final component of a path.
pub proof fn law_file_name_skips_current_dir(p: Seq<u8>)
    ensures
        file_name_spec(p + seq![47u8, 46u8]) == file_name_spec(p),
{
    let t = p + seq![47u8, 46u8];
    let k: int = p.len() as int + 1;
    lemma_seg_start_at(t, k);
    assert(t.subrange(k, t.len() as int) =~= seq![DOT]);
    assert(t.subrange(0, k) =~= p.push(47u8));
    assert(p.push(47u8).drop_last() =~= p);
    assert(t.last() == DOT);
    assert(last_component(p.push(47u8)) == last_component(p));
    assert(last_component(t) == last_component(p));
}

/// A path whose last component is `..` has no file name, nor have the empty
/// path and the root.
pub proof fn law_no_file_name_for_parent_or_root(p: Seq<u8>)
    ensures
        file_name_spec(p + seq![47u8, 46u8, 46u8]) is None,
        file_name_spec(Seq::<u8>::empty()) is None,
        file_name_spec(seq![47u8]) is None,
{
    let t = p + seq![47u8, 46u8, 46u8];
    let k: int = p.len() as int + 1;
    lemma_seg_start_at(t, k);
    assert(t.subrange(k, t.len() as int) =~= seq![DOT, DOT]);
    assert(seq![DOT, DOT] != seq![DOT]) by {
        assert(seq![DOT, DOT].len() != seq![DOT].len());
    }
    assert(seq![47u8].drop_last() =~= Seq::<u8>::empty());
}

/// Index of the last `.` in `f`, or -1.
pub open spec fn last_dot(f: Seq<u8>) -> int
    decreases f.len(),
{
    if f.len() == 0 {
        -1
    } else if f.last() == DOT {
        f.len() - 1
    } else {
        last_dot(f.drop_last())
    }
}

/// The extension of a file name: what follows its last `.`, provided that
/// something precedes that dot.
pub open spec fn extension_spec(f: Seq<u8>) -> Option<Seq<u8>> {
    let i = last_dot(f);
    if i <= 0 {
        None
    } else {
        Some(f.subrange(i + 1, f.len() as int))
    }
}

/// The extension of a file name is what follows its last `.`, when some
/// byte precedes that dot: `photo.tar.jpg` has `jpg`, `a.` has the empty
/// extension.
pub proof fn law_extension_after_last_dot(stem: Seq<u8>, ext: Seq<u8>)
    requires
        stem.len() > 0,
        forall|i: int| 0 <= i < ext.len() ==> #[trigger] ext[i] != 46u8,
    ensures
        extension_spec(stem + seq![46u8] + ext) == Some(ext),
{
    let f = stem + seq![46u8] + ext;
    let i = stem.len() as int;
    assert forall|j: int| i < j < f.len() implies f[j] != DOT by {
        assert(f[j] == ext[j - i - 1]);
    }
    assert(f[i] == DOT);
    lemma_last_dot_at(f, i);
    assert(f.subrange(i + 1, f.len() as int) =~= ext);
}

/// A file name without a `.` after its first byte has no extension: not
/// `README`, nor the hidden `.bashrc`.
pub proof fn law_no_extension_without_inner_dot(f: Seq<u8>)
    requires
        forall|j: int| 1 <= j < f.len() ==> #[trigger] f[j] != 46u8,
    ensures
        extension_spec(f) is None,
{
    if f.len() > 0 && f[0] == DOT {
        lemma_last_dot_at(f, 0);
    } else {
        lemma_last_dot_at(f, -1);
    }
}

/// What `Path::extension` gives on Unix.
pub open spec fn path_extension_spec(p: Seq<u8>) -> Option<Seq<u8>> {
    match file_name_spec(p) {
        Some(f) => extension_spec(f),
        None => None,
    }
}


pub proof fn lemma_seg_start_at(t: Seq<u8>, start: int)
    requires
        0 <= start <= t.len(),
        forall|j: int| start <= j < t.len() ==> t[j] != SLASH,
        start == 0 || t[start - 1] == SLASH,
    ensures
        seg_start(t) == start,
    decreases t.len(),
{
    if t.len() > start {
        let d = t.drop_last();
        assert forall|j: int| start <= j < d.len() implies d[j] != SLASH by {
            assert(d[j] == t[j]);
        }
        if start > 0 {
            assert(d[start - 1] == t[start - 1]);
        }
        lemma_seg_start_at(d, start);
    }
}

pub proof fn lemma_last_dot_at(f: Seq<u8>, i: int)
    requires
        -1 <= i < f.len(),
        forall|j: int| i < j < f.len() ==> f[j] != DOT,
        i == -1 || f[i] == DOT,
    ensures
        last_dot(f) == i,
    decreases f.len(),
{
    if f.len() > 0 && f.len() - 1 > i {
        let d = f.drop_last();
        assert forall|j: int| i < j < d.len() implies d[j] != DOT by {
            assert(d[j] == f[j]);
        }
        if i >= 0 {
            assert(d[i] == f[i]);
        }
        lemma_last_dot_at(d, i);
    }
}

/// Bounds of the final component of `p` inside `p` (see [`file_name_spec`]).
pub fn file_name_bounds(p: &[u8]) -> (r: Option<(usize, usize)>)
    ensures
        match r {
            Some((a, b)) => a < b <= p@.len() && file_name_spec(p@) == Some(
                p@.subrange(a as int, b as int),
            ),
            None => file_name_spec(p@) is None,
        },
{
    let mut end: usize = p.len();
    let mut start: usize = 0;
    assert(p@.subrange(0, end as int) =~= p@);
    loop
        invariant_except_break
            end <= p@.len(),
            last_component(p@) == last_component(p@.subrange(0, end as int)),
        ensures
            start < end <= p@.len(),
            last_component(p@) == p@.subrange(start as int, end as int),
        decreases end,
    {
        let ghost e0 = end;
        while end > 0 && p[end - 1] == SLASH
            invariant
                end <= e0 <= p@.len(),
                last_component(p@) == last_component(p@.subrange(0, end as int)),
            decreases end,
        {
            assert(p@.subrange(0, end as int).drop_last() =~= p@.subrange(0, end - 1));
            end = end - 1;
        }
        if end == 0 {
            assert(p@.subrange(0, 0) =~= Seq::<u8>::empty());
            return None;
        }
        start = end;
        while start > 0 && p[start - 1] != SLASH
            invariant
                start <= end <= p@.len(),
                forall|j: int| start <= j < end ==> p@[j] != SLASH,
            decreases start,
        {
            start = start - 1;
        }
        let ghost t = p@.subrange(0, end as int);
        proof {
            lemma_seg_start_at(t, start as int);
            assert(t.subrange(start as int, t.len() as int) =~= p@.subrange(start as int, end as int));
            assert(t.subrange(0, start as int) =~= p@.subrange(0, start as int));
        }
        if end - start == 1 && p[start] == DOT {
            assert(t.subrange(start as int, t.len() as int) =~= seq![DOT]);
            end = start;
        } else {
            assert(t.subrange(start as int, t.len() as int) != seq![DOT]) by {
                if start < end && end - start != 1 {
                    assert(t.subrange(start as int, t.len() as int).len() != 1);
                } else if start < end {
                    assert(t.subrange(start as int, t.len() as int)[0] != DOT);
                }
            }
            break;
        }
    }
    if end - start == 2 && p[start] == DOT && p[start + 1] == DOT {
        assert(p@.subrange(start as int, end as int) =~= seq![DOT, DOT]);
        None
    } else {
        assert(p@.subrange(start as int, end as int) != seq![DOT, DOT]) by {
            if end - start == 2 {
                if p@[start as int] != DOT {
                    assert(p@.subrange(start as int, end as int)[0] != DOT);
                } else {
                    assert(p@.subrange(start as int, end as int)[1] != DOT);
                }
            }
        }
        Some((start, end))
    }
}

/// The final component of `p`, as `Path::file_name` gives it on Unix.
pub fn file_name_of(p: &[u8]) -> (r: Option<&[u8]>)
    ensures
        match r {
            Some(n) => file_name_spec(p@) == Some(n@),
            None => file_name_spec(p@) is None,
        },
{
    match file_name_bounds(p) {
        Some((a, b)) => Some(&p[a..b]),
        None => None,
    }
}

/// The extension of the file name `f` (see [`extension_spec`]).
pub fn extension_of_name(f: &[u8]) -> (r: Option<&[u8]>)
    ensures
        match r {
            Some(e) => extension_spec(f@) == Some(e@),
            None => extension_spec(f@) is None,
        },
{
    let mut i: usize = f.len();
    while i > 0 && f[i - 1] != DOT
        invariant
            i <= f@.len(),
            forall|j: int| i <= j < f@.len() ==> f@[j] != DOT,
        decreases i,
    {
        i = i - 1;
    }
    proof {
        lemma_last_dot_at(f@, i - 1);
    }
    if i <= 1 {
        None
    } else {
        Some(&f[i..f.len()])
    }
}

/// The extension of the path `p`, as `Path::extension` gives it on Unix.
pub fn extension_of(p: &[u8]) -> (r: Option<&[u8]>)
    ensures
        match r {
            Some(e) => path_extension_spec(p@) == Some(e@),
            None => path_extension_spec(p@) is None,
        },
{
    match file_name_of(p) {
        Some(f) => extension_of_name(f),
        None => None,
    }
}


/// ASCII lower case of one byte (`u8::to_ascii_lowercase`).
pub open spec fn ascii_lower(c: u8) -> u8 {
    if 65 <= c <= 90 {
        (c + 32) as u8
    } else {
        c
    }
}

/// `[u8]::eq_ignore_ascii_case`: same length, equal bytes up to ASCII case.
pub open spec fn eq_ignore_ascii_case_spec(a: Seq<u8>, b: Seq<u8>) -> bool {
    &&& a.len() == b.len()
    &&& forall|i: int| 0 <= i < a.len() ==> ascii_lower(a[i]) == ascii_lower(b[i])
}

/// The extensions that mark a file as an image, in lower case.
pub open spec fn image_extensions() -> Seq<Seq<u8>> {
    seq![
        seq![106u8, 112u8, 103u8],  // jpg
        seq![106u8, 112u8, 101u8, 103u8],
        seq![112u8, 110u8, 103u8],  // png
        seq![103u8, 105u8, 102u8],  // gif
        seq![119u8, 101u8, 98u8, 112u8],  // webp
        seq![98u8, 109u8, 112u8],  // bmp
        seq![116u8, 105u8, 102u8, 102u8],  // tiff
    ]
}

/// An extension names an image when it equals one of [`image_extensions`]
/// up to ASCII case. (Such an extension is ASCII, so it is also valid UTF-8.)
pub open spec fn is_image_extension_spec(e: Seq<u8>) -> bool {
    exists|k: int| 0 <= k < image_extensions().len() && eq_ignore_ascii_case_spec(e, #[trigger] image_extensions()[k])
}

/// A path names an image file when its extension is an image extension.
pub open spec fn is_image_path_spec(p: Seq<u8>) -> bool {
    match path_extension_spec(p) {
        Some(e) => is_image_extension_spec(e),
        None => false,
    }
}

/// The image extensions are exactly jpg, jpeg, png, gif, webp, bmp and tiff,
/// in any ASCII case: every other extension is not one.
pub proof fn law_image_extensions_are_exactly(e: Seq<u8>)
    ensures
        is_image_extension_spec(e) <==> (
            eq_ignore_ascii_case_spec(e, seq![106u8, 112u8, 103u8])
            || eq_ignore_ascii_case_spec(e, seq![106u8, 112u8, 101u8, 103u8])
            || eq_ignore_ascii_case_spec(e, seq![112u8, 110u8, 103u8])
            || eq_ignore_ascii_case_spec(e, seq![103u8, 105u8, 102u8])
            || eq_ignore_ascii_case_spec(e, seq![119u8, 101u8, 98u8, 112u8])
            || eq_ignore_ascii_case_spec(e, seq![98u8, 109u8, 112u8])
            || eq_ignore_ascii_case_spec(e, seq![116u8, 105u8, 102u8, 102u8])),
{
    let all = image_extensions();
    assert(all.len() == 7);
    assert(all[0] =~= seq![106u8, 112u8, 103u8]);
    assert(all[1] =~= seq![106u8, 112u8, 101u8, 103u8]);
    assert(all[2] =~= seq![112u8, 110u8, 103u8]);
    assert(all[3] =~= seq![103u8, 105u8, 102u8]);
    assert(all[4] =~= seq![119u8, 101u8, 98u8, 112u8]);
    assert(all[5] =~= seq![98u8, 109u8, 112u8]);
    assert(all[6] =~= seq![116u8, 105u8, 102u8, 102u8]);
    if is_image_extension_spec(e) {
        let k = choose|k: int| 0 <= k < all.len() && eq_ignore_ascii_case_spec(e, #[trigger] all[k]);
        assert(k == 0 || k == 1 || k == 2 || k == 3 || k == 4 || k == 5 || k == 6);
    }
}

/// For an extension without upper-case ASCII letters, being an image
/// extension is being one of the seven names exactly.
pub proof fn law_lowercase_image_extensions(e: Seq<u8>)
    requires
        forall|i: int| 0 <= i < e.len() ==> !(65 <= #[trigger] e[i] <= 90),
    ensures
        is_image_extension_spec(e) <==> (
            e == seq![106u8, 112u8, 103u8]
            || e == seq![106u8, 112u8, 101u8, 103u8]
            || e == seq![112u8, 110u8, 103u8]
            || e == seq![103u8, 105u8, 102u8]
            || e == seq![119u8, 101u8, 98u8, 112u8]
            || e == seq![98u8, 109u8, 112u8]
            || e == seq![116u8, 105u8, 102u8, 102u8]),
{
    law_image_extensions_are_exactly(e);
    lemma_lowercase_eq_ignore_case(e, seq![106u8, 112u8, 103u8]);
    lemma_lowercase_eq_ignore_case(e, seq![106u8, 112u8, 101u8, 103u8]);
    lemma_lowercase_eq_ignore_case(e, seq![112u8, 110u8, 103u8]);
    lemma_lowercase_eq_ignore_case(e, seq![103u8, 105u8, 102u8]);
    lemma_lowercase_eq_ignore_case(e, seq![119u8, 101u8, 98u8, 112u8]);
    lemma_lowercase_eq_ignore_case(e, seq![98u8, 109u8, 112u8]);
    lemma_lowercase_eq_ignore_case(e, seq![116u8, 105u8, 102u8, 102u8]);
}

proof fn lemma_lowercase_eq_ignore_case(a: Seq<u8>, b: Seq<u8>)
    requires
        forall|i: int| 0 <= i < a.len() ==> !(65 <= #[trigger] a[i] <= 90),
        forall|i: int| 0 <= i < b.len() ==> 97 <= #[trigger] b[i] <= 122,
    ensures
        eq_ignore_ascii_case_spec(a, b) <==> a == b,
{
    if eq_ignore_ascii_case_spec(a, b) {
        assert forall|i: int| 0 <= i < a.len() implies a[i] == b[i] by {
            assert(ascii_lower(a[i]) == ascii_lower(b[i]));
        }
        assert(a =~= b);
    }
}

/// Two spellings of an extension that differ only in ASCII case are both
/// image extensions or both not.
pub proof fn law_image_extension_ignores_case(e1: Seq<u8>, e2: Seq<u8>)
    requires
        eq_ignore_ascii_case_spec(e1, e2),
    ensures
        is_image_extension_spec(e1) == is_image_extension_spec(e2),
{
    if is_image_extension_spec(e1) {
        let k = choose|k: int| 0 <= k < image_extensions().len() && eq_ignore_ascii_case_spec(e1, #[trigger] image_extensions()[k]);
        let x = image_extensions()[k];
        assert forall|i: int| 0 <= i < e2.len() implies ascii_lower(e2[i]) == ascii_lower(x[i]) by {
            assert(ascii_lower(e1[i]) == ascii_lower(e2[i]));
        }
        assert(eq_ignore_ascii_case_spec(e2, image_extensions()[k]));
    }
    if is_image_extension_spec(e2) {
        let k = choose|k: int| 0 <= k < image_extensions().len() && eq_ignore_ascii_case_spec(e2, #[trigger] image_extensions()[k]);
        let x = image_extensions()[k];
        assert forall|i: int| 0 <= i < e1.len() implies ascii_lower(e1[i]) == ascii_lower(x[i]) by {
            assert(ascii_lower(e1[i]) == ascii_lower(e2[i]));
        }
        assert(eq_ignore_ascii_case_spec(e1, image_extensions()[k]));
    }
}

fn lower_byte(c: u8) -> (r: u8)
    ensures
        r == ascii_lower(c),
{
    if 65 <= c && c <= 90 {
        c + 32
    } else {
        c
    }
}

/// `a.eq_ignore_ascii_case(b)` on bytes.
pub fn eq_ignore_ascii_case(a: &[u8], b: &[u8]) -> (r: bool)
    ensures
        r == eq_ignore_ascii_case_spec(a@, b@),
{
    if a.len() != b.len() {
        return false;
    }
    let mut i: usize = 0;
    while i < a.len()
        invariant
            a@.len() == b@.len(),
            i <= a@.len(),
            forall|j: int| 0 <= j < i ==> ascii_lower(a@[j]) == ascii_lower(b@[j]),
        decreases a@.len() - i,
    {
        if lower_byte(a[i]) != lower_byte(b[i]) {
            return false;
        }
        i = i + 1;
    }
    true
}

/// Whether `e` is one of the image extensions, ignoring ASCII case.
pub fn is_image_extension(e: &[u8]) -> (r: bool)
    ensures
        r == is_image_extension_spec(e@),
{
    let jpg: [u8; 3] = [106u8, 112u8, 103u8];
    let jpeg: [u8; 4] = [106u8, 112u8, 101u8, 103u8];
    let png: [u8; 3] = [112u8, 110u8, 103u8];
    let gif: [u8; 3] = [103u8, 105u8, 102u8];
    let webp: [u8; 4] = [119u8, 101u8, 98u8, 112u8];
    let bmp: [u8; 3] = [98u8, 109u8, 112u8];
    let tiff: [u8; 4] = [116u8, 105u8, 102u8, 102u8];
    let ghost all = image_extensions();
    assert(jpg@ =~= all[0]);
    assert(jpeg@ =~= all[1]);
    assert(png@ =~= all[2]);
    assert(gif@ =~= all[3]);
    assert(webp@ =~= all[4]);
    assert(bmp@ =~= all[5]);
    assert(tiff@ =~= all[6]);
    let r = eq_ignore_ascii_case(e, jpg.as_slice()) || eq_ignore_ascii_case(e, jpeg.as_slice())
        || eq_ignore_ascii_case(e, png.as_slice()) || eq_ignore_ascii_case(e, gif.as_slice())
        || eq_ignore_ascii_case(e, webp.as_slice()) || eq_ignore_ascii_case(e, bmp.as_slice())
        || eq_ignore_ascii_case(e, tiff.as_slice());
    proof {
        if !r {
            assert forall|k: int| 0 <= k < all.len() implies !eq_ignore_ascii_case_spec(e@, #[trigger] all[k]) by {
                assert(k == 0 || k == 1 || k == 2 || k == 3 || k == 4 || k == 5 || k == 6);
            }
        }
    }
    r
}

/// Whether the path names an image file: its extension (as
/// `Path::extension` gives it) is an image extension.
pub fn is_image_path(p: &[u8]) -> (r: bool)
    ensures
        r == is_image_path_spec(p@),
{
    match extension_of(p) {
        Some(e) => is_image_extension(e),
        None => false,
    }
}


/// A name for what `String::from_utf8_lossy` makes of a byte string.
pub uninterp spec fn utf8_lossy(bytes: Seq<u8>) -> Seq<char>;

/// `String::from_utf8`: the claim is that it succeeds exactly on valid UTF-8
/// and then holds the characters that the bytes encode.
#[verifier::external_body]
pub(crate) fn utf8_text(bytes: &[u8]) -> (r: Option<String>)
    ensures
        r is Some <==> valid_utf8(bytes@),
        r matches Some(s) ==> s@ == decode_utf8(bytes@),
{
    String::from_utf8(bytes.to_vec()).ok()
}

/// `String::from_utf8_lossy`: the result is named [`utf8_lossy`]; the claim
/// beyond the name is that valid UTF-8 comes back decoded unchanged.
#[verifier::external_body]
pub(crate) fn utf8_lossy_text(bytes: &[u8]) -> (r: String)
    ensures
        r@ == utf8_lossy(bytes@),
        valid_utf8(bytes@) ==> r@ == decode_utf8(bytes@),
{
    String::from_utf8_lossy(bytes).into_owned()
}

/// A name is hidden when it is valid UTF-8 and its text starts with `.`.
pub open spec fn is_hidden_name_spec(name: Seq<u8>) -> bool {
    &&& valid_utf8(name)
    &&& decode_utf8(name).len() > 0
    &&& decode_utf8(name)[0] == '.'
}

/// A path is hidden when its final component is a hidden name.
pub open spec fn is_hidden_path_spec(p: Seq<u8>) -> bool {
    match file_name_spec(p) {
        Some(n) => is_hidden_name_spec(n),
        None => false,
    }
}

/// A UTF-8 name is hidden exactly when its first byte is `.`.
pub proof fn law_hidden_name_is_leading_dot(name: Seq<u8>)
    requires
        valid_utf8(name),
    ensures
        is_hidden_name_spec(name) <==> (name.len() > 0 && name[0] == 46u8),
{
    if name.len() > 0 {
        let b = name[0];
        let x = decode_first_scalar(name);
        assert(decode_utf8(name)[0] == x as char);
        if is_leading_byte_width_1(b) {
            assert((b & 0x7f) as u32 == b as u32) by (bit_vector)
                requires
                    b <= 0x7f,
            ;
            assert(x == b as u32);
            char_u32_cast('.', 46u32);
            if b != 46u8 {
                assert(x as char != '.');
            }
        } else {
            if x as char == '.' {
                decode_utf8_first_scalar(name);
                assert(encode_scalar(46u32).len() == 1);
                assert(take_first_scalar(name).len() >= 2);
            }
        }
    } else {
        assert(decode_utf8(name).len() == 0);
    }
}

/// Whether a file name marks a hidden entry (`to_str()` succeeds and the
/// text starts with `.`).
pub fn is_hidden_name(name: &[u8]) -> (r: bool)
    ensures
        r == is_hidden_name_spec(name@),
{
    match utf8_text(name) {
        Some(s) => {
            let t = s.as_str();
            t.unicode_len() > 0 && t.get_char(0) == '.'
        },
        None => false,
    }
}

/// Whether the final component of the path is a hidden name.
pub fn is_hidden_path(p: &[u8]) -> (r: bool)
    ensures
        r == is_hidden_path_spec(p@),
{
    match file_name_of(p) {
        Some(n) => is_hidden_name(n),
        None => false,
    }
}

/// `PathBuf::join` on Unix: an absolute `name` replaces `base`; otherwise
/// `name` is appended, after a `/` when `base` is non-empty and does not
/// already end in one.
pub open spec fn join_spec(base: Seq<char>, name: Seq<char>) -> Seq<char> {
    if name.len() > 0 && name[0] == '/' {
        name
    } else if base.len() > 0 && base.last() != '/' {
        base + seq!['/'] + name
    } else {
        base + name
    }
}

/// Joins `name` onto `base` as `Path::join` does on Unix.
pub fn join_path(base: &str, name: &str) -> (r: String)
    ensures
        r@ == join_spec(base@, name@),
        name@.len() > 0 && name@[0] == '/' ==> r@ == name@,
        !(name@.len() > 0 && name@[0] == '/') && base@.len() > 0 && base@.last() != '/' ==> r@
            == base@ + seq!['/'] + name@,
        !(name@.len() > 0 && name@[0] == '/') && (base@.len() == 0 || base@.last() == '/') ==> r@
            == base@ + name@,
{
    let name_len: usize = name.unicode_len();
    if name_len > 0 && name.get_char(0) == '/' {
        return name.to_owned();
    }
    let base_len: usize = base.unicode_len();
    let mut r = base.to_owned();
    if base_len > 0 && base.get_char(base_len - 1) != '/' {
        let sep = "/";
        proof {
            reveal_strlit("/");
        }
        r.append(sep);
    }
    r.append(name);
    r
}

/// Whether two texts are equal.
pub fn text_eq(a: &str, b: &str) -> (r: bool)
    ensures
        r == (a@ == b@),
{
    let n: usize = a.unicode_len();
    if n != b.unicode_len() {
        return false;
    }
    let mut i: usize = 0;
    while i < n
        invariant
            n == a@.len(),
            n == b@.len(),
            i <= n,
            forall|j: int| 0 <= j < i ==> a@[j] == b@[j],
        decreases n - i,
    {
        if a.get_char(i) != b.get_char(i) {
            return false;
        }
        i = i + 1;
    }
    assert(a@ =~= b@);
    true
}


/// UTF-8 encoding distributes over concatenation.
pub proof fn lemma_encode_utf8_concat(a: Seq<char>, b: Seq<char>)
    ensures
        encode_utf8(a + b) == encode_utf8(a) + encode_utf8(b),
    decreases a.len(),
{
    if a.len() == 0 {
        assert(a + b =~= b);
        assert(encode_utf8(a) =~= Seq::<u8>::empty());
        assert(encode_utf8(a) + encode_utf8(b) =~= encode_utf8(b));
    } else {
        assert((a + b).drop_first() =~= a.drop_first() + b);
        assert((a + b)[0] == a[0]);
        lemma_encode_utf8_concat(a.drop_first(), b);
        assert(encode_utf8(a + b) =~= encode_scalar(a[0] as u32) + (encode_utf8(a.drop_first())
            + encode_utf8(b)));
    }
}

/// A name that can stand as the last component of a path: non-empty ASCII,
/// without `/`, and neither `.` nor `..`.
pub open spec fn is_plain_ascii_name(name: Seq<char>) -> bool {
    &&& name.len() > 0
    &&& is_ascii_chars(name)
    &&& forall|i: int| 0 <= i < name.len() ==> name[i] != '/'
    &&& name != seq!['.']
    &&& name != seq!['.', '.']
}

proof fn lemma_encode_slash()
    ensures
        encode_utf8(seq!['/']) == seq![SLASH],
{
    let c = seq!['/'];
    assert(is_ascii_chars(c));
    is_ascii_chars_encode_utf8(c);
    assert(encode_utf8(c) =~= seq![SLASH]);
}

proof fn lemma_last_component_after_slash(prefix: Seq<u8>, n: Seq<u8>)
    requires
        n.len() > 0,
        forall|i: int| 0 <= i < n.len() ==> n[i] != SLASH,
        n != seq![DOT],
        prefix.len() == 0 || prefix.last() == SLASH,
    ensures
        last_component(prefix + n) == n,
{
    let t = prefix + n;
    assert forall|j: int| prefix.len() <= j < t.len() implies t[j] != SLASH by {
        assert(t[j] == n[j - prefix.len()]);
    }
    if prefix.len() > 0 {
        assert(t[prefix.len() - 1] == prefix.last());
    }
    lemma_seg_start_at(t, prefix.len() as int);
    assert(t.last() == n.last());
    assert(t.subrange(prefix.len() as int, t.len() as int) =~= n);
}

/// Joining a plain name onto any path gives a path whose final component,
/// as `Path::file_name` reads it, is that name.
pub proof fn law_file_name_of_join(base: Seq<char>, name: Seq<char>)
    requires
        is_plain_ascii_name(name),
    ensures
        file_name_spec(encode_utf8(join_spec(base, name))) == Some(encode_utf8(name)),
{
    broadcast use is_ascii_chars_encode_utf8;

    let n = encode_utf8(name);
    assert(n.len() == name.len());
    assert forall|i: int| 0 <= i < n.len() implies n[i] != SLASH by {
        assert(name[i] as u8 == n[i]);
        assert(name[i] != '/');
        assert(is_ascii_chars(name));
        assert((name[i] as u32) < 128);
    }
    assert(n != seq![DOT]) by {
        if n =~= seq![DOT] {
            assert(name[0] as u8 == DOT);
            assert(name =~= seq!['.']);
        }
    }
    assert(n != seq![DOT, DOT]) by {
        if n =~= seq![DOT, DOT] {
            assert(name[0] as u8 == DOT);
            assert(name[1] as u8 == DOT);
            assert(name =~= seq!['.', '.']);
        }
    }
    assert(name[0] != '/');
    if base.len() > 0 && base.last() != '/' {
        let prefix = base + seq!['/'];
        lemma_encode_utf8_concat(base, seq!['/']);
        lemma_encode_utf8_concat(prefix, name);
        lemma_encode_slash();
        assert(join_spec(base, name) == prefix + name);
        lemma_last_component_after_slash(encode_utf8(prefix), n);
    } else if base.len() > 0 {
        lemma_encode_utf8_concat(base, name);
        let init = base.drop_last();
        assert(base =~= init + seq!['/']);
        lemma_encode_utf8_concat(init, seq!['/']);
        lemma_encode_slash();
        assert(encode_utf8(base).last() == SLASH);
        lemma_last_component_after_slash(encode_utf8(base), n);
    } else {
        assert(join_spec(base, name) =~= name);
        assert(Seq::<u8>::empty() + n =~= n);
        lemma_last_component_after_slash(Seq::<u8>::empty(), n);
    }
}

} // verus!
