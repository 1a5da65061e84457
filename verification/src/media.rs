//! Selection of the produced thumbnail file and its content type.

use vstd::prelude::*;

use crate::text::{eq_ignore_ascii_case, eq_ignore_ascii_case_spec};

verus! {

/// One file found in the workspace after a thumbnail run: its path and its
/// extension as found (matched case-insensitively, kept as-is for the
/// response filename).
pub struct FoundFile {
    pub path: String,
    pub ext: String,
}

pub open spec fn is_jpg_ext(e: Seq<char>) -> bool {
    eq_ignore_ascii_case_spec(e, "jpg"@) || eq_ignore_ascii_case_spec(e, "jpeg"@)
}

pub open spec fn is_png_ext(e: Seq<char>) -> bool {
    eq_ignore_ascii_case_spec(e, "png"@)
}

pub open spec fn is_webp_ext(e: Seq<char>) -> bool {
    eq_ignore_ascii_case_spec(e, "webp"@)
}

/// No extension names two of the three served image classes at once.
proof fn lemma_ext_classes_disjoint(e: Seq<char>)
    ensures
        !(is_jpg_ext(e) && is_png_ext(e)),
        !(is_jpg_ext(e) && is_webp_ext(e)),
        !(is_png_ext(e) && is_webp_ext(e)),
{
    reveal_strlit("jpg");
    reveal_strlit("jpeg");
    reveal_strlit("png");
    reveal_strlit("webp");
    if is_png_ext(e) {
        assert(e.len() == 3);
        assert(crate::text::lower_code(e[0]) == 112);
    }
    if is_webp_ext(e) {
        assert(e.len() == 4);
        assert(crate::text::lower_code(e[0]) == 119);
    }
    if eq_ignore_ascii_case_spec(e, "jpg"@) {
        assert(e.len() == 3);
        assert(crate::text::lower_code(e[0]) == 106);
    }
    if eq_ignore_ascii_case_spec(e, "jpeg"@) {
        assert(e.len() == 4);
        assert(crate::text::lower_code(e[0]) == 106);
    }
}

/// Index of the last jpg/jpeg entry, if any.
pub open spec fn last_jpg(exts: Seq<Seq<char>>) -> Option<int>
    decreases exts.len(),
{
    if exts.len() == 0 {
        Option::None
    } else if is_jpg_ext(exts.last()) {
        Option::Some(exts.len() - 1)
    } else {
        last_jpg(exts.drop_last())
    }
}

/// Index of the last png entry, if any.
pub open spec fn last_png(exts: Seq<Seq<char>>) -> Option<int>
    decreases exts.len(),
{
    if exts.len() == 0 {
        Option::None
    } else if is_png_ext(exts.last()) {
        Option::Some(exts.len() - 1)
    } else {
        last_png(exts.drop_last())
    }
}

/// Index of the last webp entry, if any.
pub open spec fn last_webp(exts: Seq<Seq<char>>) -> Option<int>
    decreases exts.len(),
{
    if exts.len() == 0 {
        Option::None
    } else if is_webp_ext(exts.last()) {
        Option::Some(exts.len() - 1)
    } else {
        last_webp(exts.drop_last())
    }
}

/// The entry served as the thumbnail: the last jpg/jpeg if any, else the
/// last png, else the last webp.
pub open spec fn selected_thumbnail(exts: Seq<Seq<char>>) -> Option<int> {
    if last_jpg(exts) is Some {
        last_jpg(exts)
    } else if last_png(exts) is Some {
        last_png(exts)
    } else {
        last_webp(exts)
    }
}

/// The extensions of the found files, in order.
pub open spec fn exts_of(files: Seq<FoundFile>) -> Seq<Seq<char>> {
    files.map_values(|f: FoundFile| f.ext@)
}

/// Pick the file to serve as the thumbnail: jpg/jpeg preferred, then png,
/// then webp, the last match of each; other files are ignored.
pub fn select_thumbnail(files: &Vec<FoundFile>) -> (r: Option<usize>)
    ensures
        match r {
            Option::Some(i) => i < files@.len() && selected_thumbnail(exts_of(files@))
                == Option::Some(i as int),
            Option::None => selected_thumbnail(exts_of(files@)) is None,
        },
{
    let mut jpg: Option<usize> = Option::None;
    let mut png: Option<usize> = Option::None;
    let mut webp: Option<usize> = Option::None;
    let n = files.len();
    let mut i: usize = 0;
    while i < n
        invariant
            n == files@.len(),
            i <= n,
            ({
                let pre = exts_of(files@.subrange(0, i as int));
                &&& (match jpg {
                    Option::Some(k) => k < i && last_jpg(pre) == Option::Some(k as int),
                    Option::None => last_jpg(pre) is None,
                })
                &&& (match png {
                    Option::Some(k) => k < i && last_png(pre) == Option::Some(k as int),
                    Option::None => last_png(pre) is None,
                })
                &&& (match webp {
                    Option::Some(k) => k < i && last_webp(pre) == Option::Some(k as int),
                    Option::None => last_webp(pre) is None,
                })
            }),
        decreases n - i,
    {
        let e = files[i].ext.as_str();
        if eq_ignore_ascii_case(e, "jpg") || eq_ignore_ascii_case(e, "jpeg") {
            jpg = Option::Some(i);
        } else if eq_ignore_ascii_case(e, "png") {
            png = Option::Some(i);
        } else if eq_ignore_ascii_case(e, "webp") {
            webp = Option::Some(i);
        }
        proof {
            lemma_ext_classes_disjoint(files@[i as int].ext@);
            let pre = exts_of(files@.subrange(0, i as int));
            let cur = exts_of(files@.subrange(0, i + 1));
            assert(files@.subrange(0, i + 1).drop_last() =~= files@.subrange(0, i as int));
            assert(cur.drop_last() =~= pre);
            assert(cur.last() == files@[i as int].ext@);
        }
        i = i + 1;
    }
    proof {
        assert(files@.subrange(0, n as int) =~= files@);
    }
    match jpg {
        Option::Some(k) => Option::Some(k),
        Option::None => match png {
            Option::Some(k) => Option::Some(k),
            Option::None => webp,
        },
    }
}

/// The content type a thumbnail with this extension is served under.
pub fn content_type_for_ext(ext: &str) -> (r: &'static str)
    ensures
        is_jpg_ext(ext@) ==> r@ == "image/jpeg"@,
        is_png_ext(ext@) ==> r@ == "image/png"@,
        is_webp_ext(ext@) ==> r@ == "image/webp"@,
        !is_jpg_ext(ext@) && !is_png_ext(ext@) && !is_webp_ext(ext@) ==> r@
            == "application/octet-stream"@,
{
    proof {
        lemma_ext_classes_disjoint(ext@);
    }
    if eq_ignore_ascii_case(ext, "jpg") || eq_ignore_ascii_case(ext, "jpeg") {
        "image/jpeg"
    } else if eq_ignore_ascii_case(ext, "png") {
        "image/png"
    } else if eq_ignore_ascii_case(ext, "webp") {
        "image/webp"
    } else {
        "application/octet-stream"
    }
}

} // verus!
