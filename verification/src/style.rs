use vstd::prelude::*;

use crate::error::StyleError;
use crate::text::{
    contains_sub, find_byte_from, find_sub, hex_byte, match_at, push_all, push_hex_byte,
    push_range,
};

verus! {

/// How the stylesheet should be treated.
#[derive(Clone, Copy, Debug, PartialEq, Eq, Structural)]
pub struct StyleSettings {
    /// Whether the system's accent color is folded into the sheet.
    pub accent: bool,
}

impl Default for StyleSettings {
    /// The accent color stays out unless asked for.
    fn default() -> (r: StyleSettings)
        ensures
            r.accent == false,
    {
        StyleSettings { accent: false }
    }
}

/// How a stylesheet file is read, by its extension.
#[derive(Clone, Copy, Debug, PartialEq, Eq, Structural)]
pub enum StyleSource {
    /// The sheet must be compiled first.
    Sass,
    /// The sheet is used as it is.
    Css,
}

/// The extension bytes `sass`.
pub open spec fn ext_sass() -> Seq<u8> {
    seq![115u8, 97u8, 115u8, 115u8]
}

/// The extension bytes `scss`.
pub open spec fn ext_scss() -> Seq<u8> {
    seq![115u8, 99u8, 115u8, 115u8]
}

/// The extension bytes `css`.
pub open spec fn ext_css() -> Seq<u8> {
    seq![99u8, 115u8, 115u8]
}

/// Decide how a stylesheet is read from its file extension: the two
/// preprocessor extensions compile, the plain one is read as it is, and
/// anything else is refused.
pub fn style_source(ext: Option<&Vec<u8>>) -> (r: Result<StyleSource, StyleError>)
    ensures
        match ext {
            Option::Some(e) => {
                if e@ == ext_sass() || e@ == ext_scss() {
                    r == Result::<StyleSource, StyleError>::Ok(StyleSource::Sass)
                } else if e@ == ext_css() {
                    r == Result::<StyleSource, StyleError>::Ok(StyleSource::Css)
                } else {
                    r matches Result::Err(err) && err is Extension
                }
            },
            Option::None => r matches Result::Err(err) && err is Extension,
        },
{
    let e = match ext {
        Option::Some(e) => e,
        Option::None => {
            return Result::Err(StyleError::Extension);
        },
    };
    let mut sass: Vec<u8> = Vec::new();
    sass.push(115);
    sass.push(97);
    sass.push(115);
    sass.push(115);
    let mut scss: Vec<u8> = Vec::new();
    scss.push(115);
    scss.push(99);
    scss.push(115);
    scss.push(115);
    let mut css: Vec<u8> = Vec::new();
    css.push(99);
    css.push(115);
    css.push(115);
    proof {
        assert(sass@ =~= ext_sass());
        assert(scss@ =~= ext_scss());
        assert(css@ =~= ext_css());
    }
    if crate::text::bytes_eq(e, &sass) || crate::text::bytes_eq(e, &scss) {
        Result::Ok(StyleSource::Sass)
    } else if crate::text::bytes_eq(e, &css) {
        Result::Ok(StyleSource::Css)
    } else {
        Result::Err(StyleError::Extension)
    }
}

/// The text a sheet declares a variable with: two dashes, the name, a
/// colon.
pub open spec fn var_pattern(name: Seq<u8>) -> Seq<u8> {
    seq![45u8, 45u8] + name + seq![58u8]
}

/// The declaration a variable is rewritten to: two dashes, the name, a
/// colon, a space, the value.
pub open spec fn var_replacement(name: Seq<u8>, value: Seq<u8>) -> Seq<u8> {
    seq![45u8, 45u8] + name + seq![58u8, 32u8] + value
}

fn build_pattern(name: &Vec<u8>) -> (p: Vec<u8>)
    ensures
        p@ == var_pattern(name@),
{
    let mut p: Vec<u8> = Vec::new();
    p.push(45);
    p.push(45);
    push_all(&mut p, name);
    p.push(58);
    proof {
        assert(p@ =~= var_pattern(name@));
    }
    p
}

/// Find the declaration of the variable `name` in the sheet `s`: the
/// position of its first `--name:` and of the semicolon that ends it.
/// Nothing where the sheet never declares the variable, or the
/// declaration is never closed.
pub fn find_var(s: &Vec<u8>, name: &Vec<u8>) -> (r: Option<(usize, usize)>)
    ensures
        r matches Option::Some(range) ==> {
            &&& match_at(s@, var_pattern(name@), range.0 as int)
            &&& forall|j: int| 0 <= j < range.0 ==> !match_at(s@, var_pattern(name@), j)
            &&& range.0 <= range.1 < s@.len()
            &&& s@[range.1 as int] == 59u8
            &&& forall|j: int| range.0 <= j < range.1 ==> s@[j] != 59u8
        },
        r is None ==> !contains_sub(s@, var_pattern(name@)) || exists|a: int|
            first_var_unclosed(s@, name@, a),
{
    let pat = build_pattern(name);
    let start = match find_sub(s, &pat) {
        Option::Some(start) => start,
        Option::None => {
            return Option::None;
        },
    };
    match find_byte_from(s, 59, start) {
        Option::Some(end) => Option::Some((start, end)),
        Option::None => {
            proof {
                assert(first_var_unclosed(s@, name@, start as int));
            }
            Option::None
        },
    }
}

/// The pattern's first occurrence stands at `a` and no semicolon follows.
pub open spec fn first_var_unclosed(s: Seq<u8>, name: Seq<u8>, a: int) -> bool {
    &&& match_at(s, var_pattern(name), a)
    &&& forall|j: int| 0 <= j < a ==> !match_at(s, var_pattern(name), j)
    &&& forall|j: int| a <= j < s.len() ==> s[j] != 59u8
}

/// Rewrite the declaration of the variable `name` in the sheet `s` to
/// carry `value`: everything from its first `--name:` up to (not
/// including) the closing semicolon becomes `--name: value`.  Nothing
/// where the sheet has no such closed declaration.
pub fn set_var(s: &Vec<u8>, name: &Vec<u8>, value: &Vec<u8>) -> (r: Option<Vec<u8>>)
    ensures
        r is Some <==> exists|a: int, b: int| set_var_range(s@, name@, a, b),
        r matches Option::Some(out) ==> exists|a: int, b: int|
            set_var_range(s@, name@, a, b) && out@ == s@.subrange(0, a) + var_replacement(
                name@,
                value@,
            ) + s@.subrange(b, s@.len() as int),
{
    let range = match find_var(s, name) {
        Option::Some(range) => range,
        Option::None => {
            proof {
                assert forall|x: int, y: int| !set_var_range(s@, name@, x, y) by {
                    if set_var_range(s@, name@, x, y) {
                        assert(match_at(s@, var_pattern(name@), x));
                        assert(contains_sub(s@, var_pattern(name@)));
                        let a = choose|a: int| first_var_unclosed(s@, name@, a);
                        assert(first_var_unclosed(s@, name@, a));
                        if a < x {
                            assert(!match_at(s@, var_pattern(name@), a));
                        }
                        if x < a {
                            assert(!match_at(s@, var_pattern(name@), x));
                        }
                        assert(a == x);
                        assert(s@[y] == 59u8);
                        assert(false);
                    }
                }
            }
            return Option::None;
        },
    };
    let (a, b) = range;
    let mut out: Vec<u8> = Vec::new();
    push_range(&mut out, s, 0, a);
    out.push(45);
    out.push(45);
    push_all(&mut out, name);
    out.push(58);
    out.push(32);
    push_all(&mut out, value);
    push_range(&mut out, s, b, s.len());
    proof {
        assert(set_var_range(s@, name@, a as int, b as int));
        assert(out@ =~= s@.subrange(0, a as int) + var_replacement(name@, value@) + s@.subrange(
            b as int,
            s@.len() as int,
        ));
    }
    Option::Some(out)
}

/// A closed declaration of `name` in `s`: the pattern's first occurrence
/// stands at `a` and the first semicolon from there stands at `b`.
pub open spec fn set_var_range(s: Seq<u8>, name: Seq<u8>, a: int, b: int) -> bool {
    &&& match_at(s, var_pattern(name), a)
    &&& forall|j: int| 0 <= j < a ==> !match_at(s, var_pattern(name), j)
    &&& a <= b < s.len()
    &&& s[b] == 59u8
    &&& forall|j: int| a <= j < b ==> s[j] != 59u8
}

/// The color value a red-green-blue triple is written as: a hash sign and
/// six upper-case hexadecimal digits.
pub open spec fn color_value(r: u8, g: u8, b: u8) -> Seq<u8> {
    seq![35u8] + hex_byte(r) + hex_byte(g) + hex_byte(b)
}

/// Rewrite the declaration of the variable `name` in the sheet `s` to the
/// hexadecimal form of the given color, as [`set_var`] does.
pub fn set_color(s: &Vec<u8>, name: &Vec<u8>, r: u8, g: u8, b: u8) -> (res: Option<Vec<u8>>)
    ensures
        res is Some <==> exists|a: int, bb: int| set_var_range(s@, name@, a, bb),
        res matches Option::Some(out) ==> exists|a: int, bb: int|
            set_var_range(s@, name@, a, bb) && out@ == s@.subrange(0, a) + var_replacement(
                name@,
                color_value(r, g, b),
            ) + s@.subrange(bb, s@.len() as int),
{
    let mut value: Vec<u8> = Vec::new();
    value.push(35);
    push_hex_byte(&mut value, r);
    push_hex_byte(&mut value, g);
    push_hex_byte(&mut value, b);
    proof {
        assert(value@ =~= color_value(r, g, b));
    }
    set_var(s, name, &value)
}

} // verus!
