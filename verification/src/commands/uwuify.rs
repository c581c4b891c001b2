//! UwUify a phrase.
//!
//! The transformation is that of this script, taken from
//! <https://honk.moe/tools/owo.html>:
//! ```javascript
//! var faces = ["(・`ω´・)", ";;w;;", "owo", "UwU", ">w<", "^w^"];
//! function OwoifyText(){
//!     v = document.getElementById("textarea").value
//!     v = v.replace(/(?:r|l)/g, "w");
//!     v = v.replace(/(?:R|L)/g, "W");
//!     v = v.replace(/n([aeiou])/g, 'ny$1');
//!     v = v.replace(/N([aeiou])/g, 'Ny$1');
//!     v = v.replace(/N([AEIOU])/g, 'Ny$1');
//!     v = v.replace(/ove/g, "uv");
//!     v = v.replace(/\!+/g, " " + faces[Math.floor(Math.random() * faces.length)] + " ");
//!     document.getElementById("textarea").value = v
//!  };
//! ```

use crate::util::{
    chars_of,
    random_index,
    push_str,
    string_from_chars,
};
use vstd::prelude::*;

verus! {

/// The faces that replace runs of `!`.
pub open spec fn faces() -> Seq<Seq<char>> {
    seq!["(・`ω´・)"@, ";;w;;"@, "owo"@, "UwU"@, ">w<"@, "^w^"@]
}

/// `r` and `l` become `w`; `R` and `L` become `W`.
pub open spec fn rl_to_w(c: char) -> char {
    if c == 'r' || c == 'l' {
        'w'
    } else if c == 'R' || c == 'L' {
        'W'
    } else {
        c
    }
}

/// A vowel: lower-case, or upper-case when `upper`.
pub open spec fn is_vowel(c: char, upper: bool) -> bool {
    if upper {
        c == 'A' || c == 'E' || c == 'I' || c == 'O' || c == 'U'
    } else {
        c == 'a' || c == 'e' || c == 'i' || c == 'o' || c == 'u'
    }
}

/// Every `lead` followed by a vowel gets a `y` between them, scanning left to
/// right.
pub open spec fn insert_y(s: Seq<char>, lead: char, upper: bool) -> Seq<char>
    decreases s.len(),
{
    if s.len() < 2 {
        s
    } else if s[0] == lead && is_vowel(s[1], upper) {
        seq![lead, 'y', s[1]] + insert_y(s.skip(2), lead, upper)
    } else {
        seq![s[0]] + insert_y(s.skip(1), lead, upper)
    }
}

/// Every `ove` becomes `uv`, scanning left to right.
pub open spec fn ove_to_uv(s: Seq<char>) -> Seq<char>
    decreases s.len(),
{
    if s.len() < 3 {
        s
    } else if s[0] == 'o' && s[1] == 'v' && s[2] == 'e' {
        seq!['u', 'v'] + ove_to_uv(s.skip(3))
    } else {
        seq![s[0]] + ove_to_uv(s.skip(1))
    }
}

/// `s` without its leading `!`s.
pub open spec fn skip_bangs(s: Seq<char>) -> Seq<char>
    decreases s.len(),
{
    if s.len() > 0 && s[0] == '!' {
        skip_bangs(s.skip(1))
    } else {
        s
    }
}

/// Every run of `!` becomes the face with a space on each side.
pub open spec fn bangs_to_face(s: Seq<char>, face: Seq<char>) -> Seq<char>
    decreases s.len(),
{
    if s.len() == 0 {
        s
    } else if s[0] == '!' {
        proof {
            lemma_skip_bangs_len(s.skip(1));
        }
        seq![' '] + face + seq![' '] + bangs_to_face(skip_bangs(s.skip(1)), face)
    } else {
        seq![s[0]] + bangs_to_face(s.skip(1), face)
    }
}

/// The uwuified form of `s`, with `face` for the runs of `!`.
pub open spec fn uwuify(s: Seq<char>, face: Seq<char>) -> Seq<char> {
    let s1 = s.map_values(|c: char| rl_to_w(c));
    let s2 = insert_y(s1, 'n', false);
    let s3 = insert_y(s2, 'N', false);
    let s4 = insert_y(s3, 'N', true);
    let s5 = ove_to_uv(s4);
    bangs_to_face(s5, face)
}

/// Removing leading `!`s never makes a text longer.
pub proof fn lemma_skip_bangs_len(s: Seq<char>)
    ensures
        skip_bangs(s).len() <= s.len(),
    decreases s.len(),
{
    if s.len() > 0 && s[0] == '!' {
        lemma_skip_bangs_len(s.skip(1));
    }
}

/// `c` is one of the letters that uwuify replaces: `r`, `l`, `R` or `L`.
pub open spec fn is_rl(c: char) -> bool {
    c == 'r' || c == 'l' || c == 'R' || c == 'L'
}

/// `s` holds no `r`, `l`, `R` or `L`.
pub open spec fn free_of_rl(s: Seq<char>) -> bool {
    forall|i: int| 0 <= i < s.len() ==> !is_rl(#[trigger] s[i])
}

proof fn lemma_insert_y_free(s: Seq<char>, lead: char, upper: bool)
    requires
        free_of_rl(s),
        !is_rl(lead),
    ensures
        free_of_rl(insert_y(s, lead, upper)),
    decreases s.len(),
{
    if s.len() >= 2 {
        if s[0] == lead && is_vowel(s[1], upper) {
            assert(free_of_rl(s.skip(2))) by {
                assert forall|i: int| 0 <= i < s.skip(2).len() implies !is_rl(#[trigger] s.skip(2)[i]) by {
                    assert(s.skip(2)[i] == s[i + 2]);
                }
            }
            lemma_insert_y_free(s.skip(2), lead, upper);
            let t = seq![lead, 'y', s[1]];
            assert(!is_rl(s[1]));
            assert(free_of_rl(t));
            let r = insert_y(s.skip(2), lead, upper);
            assert forall|i: int| 0 <= i < (t + r).len() implies !is_rl(#[trigger] (t + r)[i]) by {
                if i >= 3 {
                    assert((t + r)[i] == r[i - 3]);
                }
            }
        } else {
            assert(free_of_rl(s.skip(1))) by {
                assert forall|i: int| 0 <= i < s.skip(1).len() implies !is_rl(#[trigger] s.skip(1)[i]) by {
                    assert(s.skip(1)[i] == s[i + 1]);
                }
            }
            lemma_insert_y_free(s.skip(1), lead, upper);
            let t = seq![s[0]];
            let r = insert_y(s.skip(1), lead, upper);
            assert(!is_rl(s[0]));
            assert forall|i: int| 0 <= i < (t + r).len() implies !is_rl(#[trigger] (t + r)[i]) by {
                if i >= 1 {
                    assert((t + r)[i] == r[i - 1]);
                }
            }
        }
    }
}

proof fn lemma_ove_to_uv_free(s: Seq<char>)
    requires
        free_of_rl(s),
    ensures
        free_of_rl(ove_to_uv(s)),
    decreases s.len(),
{
    if s.len() >= 3 {
        let k: int = if s[0] == 'o' && s[1] == 'v' && s[2] == 'e' {
            3
        } else {
            1
        };
        assert(free_of_rl(s.skip(k))) by {
            assert forall|i: int| 0 <= i < s.skip(k).len() implies !is_rl(#[trigger] s.skip(k)[i]) by {
                assert(s.skip(k)[i] == s[i + k]);
            }
        }
        lemma_ove_to_uv_free(s.skip(k));
        let t: Seq<char> = if k == 3 {
            seq!['u', 'v']
        } else {
            seq![s[0]]
        };
        let r = ove_to_uv(s.skip(k));
        assert(!is_rl(s[0]));
        assert forall|i: int| 0 <= i < (t + r).len() implies !is_rl(#[trigger] (t + r)[i]) by {
            if i >= t.len() {
                assert((t + r)[i] == r[i - t.len()]);
            }
        }
    }
}

proof fn lemma_skip_bangs_suffix(s: Seq<char>)
    ensures
        exists|k: int| 0 <= k <= s.len() && #[trigger] s.skip(k) == skip_bangs(s),
        skip_bangs(s).len() == 0 || skip_bangs(s)[0] != '!',
    decreases s.len(),
{
    if s.len() > 0 && s[0] == '!' {
        lemma_skip_bangs_suffix(s.skip(1));
        let k = choose|k: int| 0 <= k <= s.skip(1).len() && #[trigger] s.skip(1).skip(k) == skip_bangs(
            s.skip(1),
        );
        assert(s.skip(1).skip(k) =~= s.skip(k + 1));
    } else {
        assert(s.skip(0) =~= s);
    }
}

/// `s` holds none of `r`, `l`, `R`, `L` and `!`.
pub open spec fn free_of_rl_and_bangs(s: Seq<char>) -> bool {
    forall|i: int| 0 <= i < s.len() ==> !is_rl(#[trigger] s[i]) && s[i] != '!'
}

proof fn lemma_bangs_to_face_free(s: Seq<char>, face: Seq<char>)
    requires
        free_of_rl(s),
        free_of_rl_and_bangs(face),
    ensures
        free_of_rl_and_bangs(bangs_to_face(s, face)),
    decreases s.len(),
{
    if s.len() > 0 {
        if s[0] == '!' {
            lemma_skip_bangs_len(s.skip(1));
            lemma_skip_bangs_suffix(s.skip(1));
            let rest = skip_bangs(s.skip(1));
            let k = choose|k: int| 0 <= k <= s.skip(1).len() && #[trigger] s.skip(1).skip(k) == rest;
            assert(free_of_rl(rest)) by {
                assert forall|i: int| 0 <= i < rest.len() implies !is_rl(#[trigger] rest[i]) by {
                    assert(rest[i] == s.skip(1).skip(k)[i]);
                    assert(s.skip(1).skip(k)[i] == s[i + k + 1]);
                }
            }
            lemma_bangs_to_face_free(rest, face);
            let t = seq![' '] + face + seq![' '];
            let r = bangs_to_face(rest, face);
            assert forall|i: int| 0 <= i < (t + r).len() implies !is_rl(#[trigger] (t + r)[i])
                && (t + r)[i] != '!' by {
                if i >= t.len() {
                    assert((t + r)[i] == r[i - t.len()]);
                } else if 1 <= i < t.len() - 1 {
                    assert((t + r)[i] == face[i - 1]);
                }
            }
        } else {
            assert(free_of_rl(s.skip(1))) by {
                assert forall|i: int| 0 <= i < s.skip(1).len() implies !is_rl(#[trigger] s.skip(1)[i]) by {
                    assert(s.skip(1)[i] == s[i + 1]);
                }
            }
            lemma_bangs_to_face_free(s.skip(1), face);
            let t = seq![s[0]];
            let r = bangs_to_face(s.skip(1), face);
            assert(!is_rl(s[0]));
            assert forall|i: int| 0 <= i < (t + r).len() implies !is_rl(#[trigger] (t + r)[i])
                && (t + r)[i] != '!' by {
                if i >= 1 {
                    assert((t + r)[i] == r[i - 1]);
                }
            }
        }
    }
}

/// No face holds `r`, `l`, `R`, `L` or `!`.
pub proof fn lemma_faces_free(i: int)
    requires
        0 <= i < 6,
    ensures
        free_of_rl_and_bangs(faces()[i]),
{
    reveal_strlit("(・`ω´・)");
    reveal_strlit(";;w;;");
    reveal_strlit("owo");
    reveal_strlit("UwU");
    reveal_strlit(">w<");
    reveal_strlit("^w^");
}

/// An uwuified text holds no `r`, `l`, `R` or `L`, and no `!`, whatever the
/// text and whichever face was drawn.
pub proof fn lemma_uwuify_replaces_all(s: Seq<char>, i: int)
    requires
        0 <= i < 6,
    ensures
        free_of_rl_and_bangs(uwuify(s, faces()[i])),
{
    let s1 = s.map_values(|c: char| rl_to_w(c));
    assert(free_of_rl(s1));
    lemma_insert_y_free(s1, 'n', false);
    let s2 = insert_y(s1, 'n', false);
    lemma_insert_y_free(s2, 'N', false);
    let s3 = insert_y(s2, 'N', false);
    lemma_insert_y_free(s3, 'N', true);
    let s4 = insert_y(s3, 'N', true);
    lemma_ove_to_uv_free(s4);
    lemma_faces_free(i);
    lemma_bangs_to_face_free(ove_to_uv(s4), faces()[i]);
}

/// `s` holds no `!`.
pub open spec fn free_of_bangs(s: Seq<char>) -> bool {
    forall|i: int| 0 <= i < s.len() ==> #[trigger] s[i] != '!'
}

proof fn lemma_skip_free(s: Seq<char>, k: int)
    requires
        free_of_bangs(s),
        0 <= k <= s.len(),
    ensures
        free_of_bangs(s.skip(k)),
{
    assert forall|i: int| 0 <= i < s.skip(k).len() implies #[trigger] s.skip(k)[i] != '!' by {
        assert(s.skip(k)[i] == s[i + k]);
    }
}

proof fn lemma_concat_free(t: Seq<char>, r: Seq<char>)
    requires
        free_of_bangs(t),
        free_of_bangs(r),
    ensures
        free_of_bangs(t + r),
{
    assert forall|i: int| 0 <= i < (t + r).len() implies #[trigger] (t + r)[i] != '!' by {
        if i >= t.len() {
            assert((t + r)[i] == r[i - t.len()]);
        }
    }
}

proof fn lemma_insert_y_no_bangs(s: Seq<char>, lead: char, upper: bool)
    requires
        free_of_bangs(s),
        lead != '!',
    ensures
        free_of_bangs(insert_y(s, lead, upper)),
    decreases s.len(),
{
    if s.len() >= 2 {
        if s[0] == lead && is_vowel(s[1], upper) {
            lemma_skip_free(s, 2);
            lemma_insert_y_no_bangs(s.skip(2), lead, upper);
            lemma_concat_free(seq![lead, 'y', s[1]], insert_y(s.skip(2), lead, upper));
        } else {
            lemma_skip_free(s, 1);
            lemma_insert_y_no_bangs(s.skip(1), lead, upper);
            lemma_concat_free(seq![s[0]], insert_y(s.skip(1), lead, upper));
        }
    }
}

proof fn lemma_ove_to_uv_no_bangs(s: Seq<char>)
    requires
        free_of_bangs(s),
    ensures
        free_of_bangs(ove_to_uv(s)),
    decreases s.len(),
{
    if s.len() >= 3 {
        if s[0] == 'o' && s[1] == 'v' && s[2] == 'e' {
            lemma_skip_free(s, 3);
            lemma_ove_to_uv_no_bangs(s.skip(3));
            lemma_concat_free(seq!['u', 'v'], ove_to_uv(s.skip(3)));
        } else {
            lemma_skip_free(s, 1);
            lemma_ove_to_uv_no_bangs(s.skip(1));
            lemma_concat_free(seq![s[0]], ove_to_uv(s.skip(1)));
        }
    }
}

proof fn lemma_insert_y_split(x: Seq<char>, y: Seq<char>, lead: char, upper: bool)
    requires
        lead != '!',
    ensures
        insert_y(x + seq!['!'] + y, lead, upper) == insert_y(x, lead, upper) + seq!['!'] + insert_y(
            y,
            lead,
            upper,
        ),
    decreases x.len(),
{
    let s = x + seq!['!'] + y;
    assert(!is_vowel('!', upper));
    if x.len() == 0 {
        assert(s =~= seq!['!'] + y);
        if y.len() == 0 {
            assert(s =~= seq!['!']);
        } else {
            assert(s.skip(1) =~= y);
        }
    } else if x.len() == 1 {
        assert(s.skip(1) =~= seq!['!'] + y);
        lemma_insert_y_split(x.skip(1), y, lead, upper);
        assert(x.skip(1) =~= Seq::<char>::empty());
        assert(Seq::<char>::empty() + seq!['!'] + y =~= seq!['!'] + y);
        assert(seq![x[0]] + (seq!['!'] + insert_y(y, lead, upper)) =~= x + seq!['!'] + insert_y(
            y,
            lead,
            upper,
        ));
    } else {
        if x[0] == lead && is_vowel(x[1], upper) {
            assert(s.skip(2) =~= x.skip(2) + seq!['!'] + y);
            lemma_insert_y_split(x.skip(2), y, lead, upper);
        } else {
            assert(s.skip(1) =~= x.skip(1) + seq!['!'] + y);
            lemma_insert_y_split(x.skip(1), y, lead, upper);
        }
    }
}

proof fn lemma_ove_split(x: Seq<char>, y: Seq<char>)
    ensures
        ove_to_uv(x + seq!['!'] + y) == ove_to_uv(x) + seq!['!'] + ove_to_uv(y),
    decreases x.len(),
{
    let s = x + seq!['!'] + y;
    if s.len() < 3 {
        assert(ove_to_uv(x) == x);
        assert(ove_to_uv(y) == y);
    } else if x.len() >= 3 && x[0] == 'o' && x[1] == 'v' && x[2] == 'e' {
        assert(s.skip(3) =~= x.skip(3) + seq!['!'] + y);
        lemma_ove_split(x.skip(3), y);
    } else if x.len() == 0 {
        assert(s =~= seq!['!'] + y);
        assert(s.skip(1) =~= y);
    } else {
        assert(!(s[0] == 'o' && s[1] == 'v' && s[2] == 'e'));
        assert(s.skip(1) =~= x.skip(1) + seq!['!'] + y);
        lemma_ove_split(x.skip(1), y);
        if x.len() < 3 {
            assert(ove_to_uv(x) == x);
            assert(ove_to_uv(x.skip(1)) == x.skip(1));
            assert(seq![x[0]] + x.skip(1) =~= x);
        }
    }
}

proof fn lemma_bangs_split(x: Seq<char>, y: Seq<char>, face: Seq<char>)
    requires
        free_of_bangs(x),
        free_of_bangs(y),
    ensures
        bangs_to_face(x + seq!['!'] + y, face) == bangs_to_face(x, face) + seq![' '] + face + seq![
            ' ',
        ] + bangs_to_face(y, face),
    decreases x.len(),
{
    let s = x + seq!['!'] + y;
    if x.len() == 0 {
        assert(s.skip(1) =~= y);
        assert(y.len() == 0 || y[0] != '!');
        assert(skip_bangs(y) == y);
        assert(bangs_to_face(x, face) =~= Seq::<char>::empty());
    } else {
        assert(x[0] != '!');
        assert(s.skip(1) =~= x.skip(1) + seq!['!'] + y);
        lemma_skip_free(x, 1);
        lemma_bangs_split(x.skip(1), y, face);
    }
}

proof fn lemma_bangs_free_identity(x: Seq<char>, face: Seq<char>)
    requires
        free_of_bangs(x),
    ensures
        bangs_to_face(x, face) == x,
    decreases x.len(),
{
    if x.len() > 0 {
        assert(x[0] != '!');
        lemma_skip_free(x, 1);
        lemma_bangs_free_identity(x.skip(1), face);
        assert(seq![x[0]] + x.skip(1) =~= x);
    }
}

proof fn lemma_uwuify_prefix_free(s: Seq<char>)
    requires
        free_of_bangs(s),
    ensures
        free_of_bangs(
            ove_to_uv(
                insert_y(
                    insert_y(insert_y(s.map_values(|c: char| rl_to_w(c)), 'n', false), 'N', false),
                    'N',
                    true,
                ),
            ),
        ),
{
    let s1 = s.map_values(|c: char| rl_to_w(c));
    assert(free_of_bangs(s1));
    lemma_insert_y_no_bangs(s1, 'n', false);
    let s2 = insert_y(s1, 'n', false);
    lemma_insert_y_no_bangs(s2, 'N', false);
    let s3 = insert_y(s2, 'N', false);
    lemma_insert_y_no_bangs(s3, 'N', true);
    lemma_ove_to_uv_no_bangs(insert_y(s3, 'N', true));
}

/// A text without `!` is uwuified the same whatever face is drawn.
pub proof fn lemma_uwuify_face_free(s: Seq<char>, face1: Seq<char>, face2: Seq<char>)
    requires
        free_of_bangs(s),
    ensures
        uwuify(s, face1) == uwuify(s, face2),
{
    lemma_uwuify_prefix_free(s);
    let s1 = s.map_values(|c: char| rl_to_w(c));
    let s5 = ove_to_uv(insert_y(insert_y(insert_y(s1, 'n', false), 'N', false), 'N', true));
    lemma_bangs_free_identity(s5, face1);
    lemma_bangs_free_identity(s5, face2);
}

/// A text that is two runs without `!` joined by one `!` is uwuified as the
/// two runs uwuified on their own, with the face drawn for the whole text
/// between them, a space on each side. The faces drawn for the runs on their
/// own play no part.
pub proof fn lemma_uwuify_bang_split(
    a: Seq<char>,
    b: Seq<char>,
    face: Seq<char>,
    face_a: Seq<char>,
    face_b: Seq<char>,
)
    requires
        free_of_bangs(a),
        free_of_bangs(b),
    ensures
        uwuify(a + seq!['!'] + b, face) == uwuify(a, face_a) + seq![' '] + face + seq![' ']
            + uwuify(b, face_b),
{
    let s = a + seq!['!'] + b;
    let a1 = a.map_values(|c: char| rl_to_w(c));
    let b1 = b.map_values(|c: char| rl_to_w(c));
    assert(s.map_values(|c: char| rl_to_w(c)) =~= a1 + seq!['!'] + b1);
    assert(free_of_bangs(a1));
    assert(free_of_bangs(b1));
    lemma_insert_y_split(a1, b1, 'n', false);
    let a2 = insert_y(a1, 'n', false);
    let b2 = insert_y(b1, 'n', false);
    lemma_insert_y_no_bangs(a1, 'n', false);
    lemma_insert_y_no_bangs(b1, 'n', false);
    lemma_insert_y_split(a2, b2, 'N', false);
    let a3 = insert_y(a2, 'N', false);
    let b3 = insert_y(b2, 'N', false);
    lemma_insert_y_no_bangs(a2, 'N', false);
    lemma_insert_y_no_bangs(b2, 'N', false);
    lemma_insert_y_split(a3, b3, 'N', true);
    let a4 = insert_y(a3, 'N', true);
    let b4 = insert_y(b3, 'N', true);
    lemma_insert_y_no_bangs(a3, 'N', true);
    lemma_insert_y_no_bangs(b3, 'N', true);
    lemma_ove_split(a4, b4);
    lemma_ove_to_uv_no_bangs(a4);
    lemma_ove_to_uv_no_bangs(b4);
    lemma_bangs_split(ove_to_uv(a4), ove_to_uv(b4), face);
    lemma_uwuify_face_free(a, face, face_a);
    lemma_uwuify_face_free(b, face, face_b);
}

proof fn lemma_uwuify_lead_vowel(lead: char, v: char, face: Seq<char>)
    requires
        lead == 'n' || lead == 'N',
        v != '!' && v != 'r' && v != 'l' && v != 'R' && v != 'L' && v != 'v' && v != 'y',
        lead == 'n' ==> is_vowel(v, false),
        lead == 'N' ==> is_vowel(v, false) || is_vowel(v, true),
    ensures
        uwuify(seq![lead, v], face) == seq![lead, 'y', v],
{
    let s = seq![lead, v];
    let s1 = s.map_values(|c: char| rl_to_w(c));
    assert(s1 =~= s);
    reveal_with_fuel(insert_y, 4);
    reveal_with_fuel(ove_to_uv, 3);
    let ny = seq![lead, 'y', v];
    assert(s.skip(2) =~= Seq::<char>::empty());
    assert(ny.skip(1) =~= seq!['y', v]);
    assert(ny.skip(1).skip(1) =~= seq![v]);
    assert(seq!['y', v].skip(1) =~= seq![v]);
    if lead == 'n' {
        assert(insert_y(s, 'n', false) =~= ny);
        assert(insert_y(ny, 'N', false) =~= ny);
        assert(insert_y(ny, 'N', true) =~= ny);
    } else if is_vowel(v, false) {
        assert(insert_y(s, 'n', false) =~= s);
        assert(insert_y(s, 'N', false) =~= ny);
        assert(insert_y(ny, 'N', true) =~= ny);
    } else {
        assert(insert_y(s, 'n', false) =~= s);
        assert(insert_y(s, 'N', false) =~= s);
        assert(insert_y(s, 'N', true) =~= ny);
    }
    assert(ove_to_uv(ny) =~= ny);
    assert(free_of_bangs(ny));
    lemma_bangs_free_identity(ny, face);
}

/// An `n` before a lower-case vowel, and an `N` before a vowel of either
/// case, get a `y` between them, whatever face is drawn: `na` becomes `nya`,
/// `Ne` becomes `Nye`, `NI` becomes `NyI`, for each of the vowels `a e i o u`
/// and `A E I O U`.
pub proof fn lemma_uwuify_n_vowel(v: char, face: Seq<char>)
    ensures
        (v == 'a' || v == 'e' || v == 'i' || v == 'o' || v == 'u') ==> uwuify(seq!['n', v], face)
            == seq!['n', 'y', v] && uwuify(seq!['N', v], face) == seq!['N', 'y', v],
        (v == 'A' || v == 'E' || v == 'I' || v == 'O' || v == 'U') ==> uwuify(seq!['N', v], face)
            == seq!['N', 'y', v],
{
    if v == 'a' || v == 'e' || v == 'i' || v == 'o' || v == 'u' {
        lemma_uwuify_lead_vowel('n', v, face);
        lemma_uwuify_lead_vowel('N', v, face);
    }
    if v == 'A' || v == 'E' || v == 'I' || v == 'O' || v == 'U' {
        lemma_uwuify_lead_vowel('N', v, face);
    }
}

proof fn lemma_uwuify_lead_other(lead: char, c: char, face: Seq<char>)
    requires
        lead == 'n' || lead == 'N',
        c != '!' && c != 'r' && c != 'l' && c != 'R' && c != 'L',
        !is_vowel(c, false),
        lead == 'N' ==> !is_vowel(c, true),
    ensures
        uwuify(seq![lead, c], face) == seq![lead, c],
{
    let s = seq![lead, c];
    let s1 = s.map_values(|x: char| rl_to_w(x));
    assert(s1 =~= s);
    reveal_with_fuel(insert_y, 3);
    assert(s.skip(1) =~= seq![c]);
    assert(insert_y(s, 'n', false) =~= s);
    assert(insert_y(s, 'N', false) =~= s);
    assert(insert_y(s, 'N', true) =~= s);
    assert(ove_to_uv(s) =~= s);
    assert(free_of_bangs(s));
    lemma_bangs_free_identity(s, face);
}

/// An `n` before anything but a lower-case vowel, and an `N` before
/// anything but a vowel, are left as they are: only `a e i o u` (and, after
/// `N`, `A E I O U`) take a `y`.
pub proof fn lemma_uwuify_n_other(c: char, face: Seq<char>)
    requires
        c != '!' && c != 'r' && c != 'l' && c != 'R' && c != 'L',
    ensures
        !(c == 'a' || c == 'e' || c == 'i' || c == 'o' || c == 'u') ==> uwuify(seq!['n', c], face)
            == seq!['n', c],
        !(c == 'a' || c == 'e' || c == 'i' || c == 'o' || c == 'u' || c == 'A' || c == 'E' || c
            == 'I' || c == 'O' || c == 'U') ==> uwuify(seq!['N', c], face) == seq!['N', c],
{
    if !(c == 'a' || c == 'e' || c == 'i' || c == 'o' || c == 'u') {
        lemma_uwuify_lead_other('n', c, face);
    }
    if !(c == 'a' || c == 'e' || c == 'i' || c == 'o' || c == 'u' || c == 'A' || c == 'E' || c
        == 'I' || c == 'O' || c == 'U') {
        lemma_uwuify_lead_other('N', c, face);
    }
}

fn is_vowel_exec(c: char, upper: bool) -> (res: bool)
    ensures
        res == is_vowel(c, upper),
{
    if upper {
        c == 'A' || c == 'E' || c == 'I' || c == 'O' || c == 'U'
    } else {
        c == 'a' || c == 'e' || c == 'i' || c == 'o' || c == 'u'
    }
}

fn rl_pass(s: &Vec<char>) -> (res: Vec<char>)
    ensures
        res@ == s@.map_values(|c: char| rl_to_w(c)),
{
    let mut out: Vec<char> = Vec::new();
    let mut i: usize = 0;
    while i < s.len()
        invariant
            0 <= i <= s.len(),
            out@ == s@.take(i as int).map_values(|c: char| rl_to_w(c)),
        decreases s.len() - i,
    {
        let c = s[i];
        let d = if c == 'r' || c == 'l' {
            'w'
        } else if c == 'R' || c == 'L' {
            'W'
        } else {
            c
        };
        out.push(d);
        assert(s@.take(i + 1).map_values(|c: char| rl_to_w(c)) =~= s@.take(i as int).map_values(
            |c: char| rl_to_w(c),
        ).push(d));
        i = i + 1;
    }
    assert(s@.take(s.len() as int) =~= s@);
    out
}

fn insert_y_pass(s: &Vec<char>, lead: char, upper: bool) -> (res: Vec<char>)
    ensures
        res@ == insert_y(s@, lead, upper),
{
    let mut out: Vec<char> = Vec::new();
    let mut i: usize = 0;
    let n = s.len();
    assert(s@.skip(0) =~= s@);
    while i < n
        invariant
            0 <= i <= n,
            n == s@.len(),
            insert_y(s@, lead, upper) == out@ + insert_y(s@.skip(i as int), lead, upper),
        decreases n - i,
    {
        let ghost rest = s@.skip(i as int);
        if i + 1 < n && s[i] == lead && is_vowel_exec(s[i + 1], upper) {
            let v = s[i + 1];
            assert(rest.skip(2) =~= s@.skip(i + 2));
            assert(insert_y(rest, lead, upper) == seq![lead, 'y', v] + insert_y(
                s@.skip(i + 2),
                lead,
                upper,
            ));
            let ghost before = out@;
            out.push(lead);
            out.push('y');
            out.push(v);
            assert(out@ =~= before + seq![lead, 'y', v]);
            assert(before + (seq![lead, 'y', v] + insert_y(s@.skip(i + 2), lead, upper)) =~= out@
                + insert_y(s@.skip(i + 2), lead, upper));
            i = i + 2;
        } else {
            let c = s[i];
            assert(rest.skip(1) =~= s@.skip(i + 1));
            proof {
                if rest.len() < 2 {
                    assert(s@.skip(i + 1) =~= Seq::<char>::empty());
                    assert(rest =~= seq![c]);
                }
                assert(insert_y(rest, lead, upper) == seq![c] + insert_y(
                    s@.skip(i + 1),
                    lead,
                    upper,
                ));
            }
            let ghost before = out@;
            out.push(c);
            assert(before + (seq![c] + insert_y(s@.skip(i + 1), lead, upper)) =~= out@
                + insert_y(s@.skip(i + 1), lead, upper));
            i = i + 1;
        }
    }
    assert(s@.skip(n as int) =~= Seq::<char>::empty());
    assert(out@ + Seq::<char>::empty() =~= out@);
    out
}

fn ove_pass(s: &Vec<char>) -> (res: Vec<char>)
    ensures
        res@ == ove_to_uv(s@),
{
    let mut out: Vec<char> = Vec::new();
    let mut i: usize = 0;
    let n = s.len();
    assert(s@.skip(0) =~= s@);
    while i < n
        invariant
            0 <= i <= n,
            n == s@.len(),
            ove_to_uv(s@) == out@ + ove_to_uv(s@.skip(i as int)),
        decreases n - i,
    {
        let ghost rest = s@.skip(i as int);
        if n - i > 2 && s[i] == 'o' && s[i + 1] == 'v' && s[i + 2] == 'e' {
            assert(rest.skip(3) =~= s@.skip(i + 3));
            let ghost before = out@;
            out.push('u');
            out.push('v');
            assert(before + (seq!['u', 'v'] + ove_to_uv(s@.skip(i + 3))) =~= out@ + ove_to_uv(
                s@.skip(i + 3),
            ));
            i = i + 3;
        } else {
            let c = s[i];
            assert(rest.skip(1) =~= s@.skip(i + 1));
            proof {
                if rest.len() < 3 {
                    assert(rest =~= seq![c] + s@.skip(i + 1));
                    if rest.len() == 2 {
                        assert(s@.skip(i + 1) =~= seq![s@[i + 1]]);
                    } else {
                        assert(s@.skip(i + 1) =~= Seq::<char>::empty());
                    }
                }
                assert(ove_to_uv(rest) == seq![c] + ove_to_uv(s@.skip(i + 1)));
            }
            let ghost before = out@;
            out.push(c);
            assert(before + (seq![c] + ove_to_uv(s@.skip(i + 1))) =~= out@ + ove_to_uv(
                s@.skip(i + 1),
            ));
            i = i + 1;
        }
    }
    assert(s@.skip(n as int) =~= Seq::<char>::empty());
    assert(out@ + Seq::<char>::empty() =~= out@);
    out
}

fn bang_pass(s: &Vec<char>, face: &str) -> (res: Vec<char>)
    ensures
        res@ == bangs_to_face(s@, face@),
{
    let mut out: Vec<char> = Vec::new();
    let mut i: usize = 0;
    let n = s.len();
    assert(s@.skip(0) =~= s@);
    while i < n
        invariant
            0 <= i <= n,
            n == s@.len(),
            bangs_to_face(s@, face@) == out@ + bangs_to_face(s@.skip(i as int), face@),
        decreases n - i,
    {
        let ghost rest = s@.skip(i as int);
        if s[i] == '!' {
            let mut j: usize = i + 1;
            assert(rest.skip(1) =~= s@.skip(i + 1));
            while j < n && s[j] == '!'
                invariant
                    i < j <= n,
                    n == s@.len(),
                    skip_bangs(s@.skip(i + 1)) == skip_bangs(s@.skip(j as int)),
                decreases n - j,
            {
                assert(s@.skip(j as int).skip(1) =~= s@.skip(j + 1));
                j = j + 1;
            }
            proof {
                if j < n {
                    assert(s@.skip(j as int)[0] != '!');
                } else {
                    assert(s@.skip(j as int) =~= Seq::<char>::empty());
                }
                assert(skip_bangs(s@.skip(j as int)) == s@.skip(j as int));
            }
            let ghost before = out@;
            out.push(' ');
            push_str(&mut out, face);
            out.push(' ');
            assert(out@ =~= before + (seq![' '] + face@ + seq![' ']));
            assert(before + (seq![' '] + face@ + seq![' '] + bangs_to_face(s@.skip(j as int), face@))
                =~= out@ + bangs_to_face(s@.skip(j as int), face@));
            i = j;
        } else {
            let c = s[i];
            assert(rest.skip(1) =~= s@.skip(i + 1));
            let ghost before = out@;
            out.push(c);
            assert(before + (seq![c] + bangs_to_face(s@.skip(i + 1), face@)) =~= out@
                + bangs_to_face(s@.skip(i + 1), face@));
            i = i + 1;
        }
    }
    assert(s@.skip(n as int) =~= Seq::<char>::empty());
    assert(out@ + Seq::<char>::empty() =~= out@);
    out
}

/// The face with index `i`.
pub fn face(i: usize) -> (res: &'static str)
    requires
        i < 6,
    ensures
        res@ == faces()[i as int],
{
    if i == 0 {
        "(・`ω´・)"
    } else if i == 1 {
        ";;w;;"
    } else if i == 2 {
        "owo"
    } else if i == 3 {
        "UwU"
    } else if i == 4 {
        ">w<"
    } else {
        "^w^"
    }
}

/// UwUify a phrase, replacing each run of `!` with `face`.
pub fn uwuify_with_face(input: &str, face: &str) -> (res: String)
    ensures
        res@ == uwuify(input@, face@),
{
    let s0 = chars_of(input);
    let s1 = rl_pass(&s0);
    let s2 = insert_y_pass(&s1, 'n', false);
    let s3 = insert_y_pass(&s2, 'N', false);
    let s4 = insert_y_pass(&s3, 'N', true);
    let s5 = ove_pass(&s4);
    let s6 = bang_pass(&s5, face);
    string_from_chars(&s6)
}

/// UwUify a phrase: `r` and `l` become `w`, `n` before a vowel becomes `ny`,
/// `ove` becomes `uv`, and each run of `!` becomes one randomly chosen face.
pub fn uwuify_str(input: &str) -> (res: String)
    ensures
        exists|i: int| 0 <= i < 6 && res@ == uwuify(input@, #[trigger] faces()[i]),
{
    let i = random_index(6);
    let f = face(i);
    let res = uwuify_with_face(input, f);
    assert(res@ == uwuify(input@, faces()[i as int]));
    res
}

} // verus!
