//! Finding a Drupal form, and a value in a form, in a page's HTML.

use vstd::prelude::*;
use crate::pattern::{is_infix_of, opt_view, regex_capture, regex_compiles, Pattern, PatternError};

verus! {

/// Appends `c` with `String::push`.
#[verifier::external_body]
fn push_char(s: &mut String, c: char)
    ensures
        final(s)@ == old(s)@.push(c),
{
    s.push(c);
}

/// Keeps every character but the line feed.
pub open spec fn not_newline(c: char) -> bool {
    c != '\n'
}

/// `s` with every line feed taken out, the rest kept in order.
pub open spec fn without_newlines(s: Seq<char>) -> Seq<char> {
    s.filter(|c: char| not_newline(c))
}

/// Returns `html` with every line feed removed, as `html.replace("\n", "")`.
pub fn remove_newlines(html: &str) -> (r: String)
    ensures
        r@ == without_newlines(html@),
{
    let mut out = String::new();
    let ghost text = html@;
    for c in it: html.chars()
        invariant
            it.seq() == text,
            out@ == without_newlines(text.take(it.index() as int)),
    {
        let ghost i = it.index() as int;
        assert(c == text[i]);
        if c != '\n' {
            push_char(&mut out, c);
        }
        proof {
            reveal(Seq::filter);
            assert(text.take(i + 1).drop_last() =~= text.take(i));
            assert(text.take(i + 1).last() == c);
        }
    }
    proof {
        assert(text.take(text.len() as int) =~= text);
    }
    out
}

/// The pattern that finds the form whose `data-drupal-selector` is `name`:
/// `<form ATTRS data-drupal-selector="NAME" ATTRS>(.*?)</form>`, with `name`
/// put in as it is (not escaped). `ATTRS` is
/// `(?:[^>"']|"[^"]*"|'[^']*')*`: text up to the end of the tag, where a
/// quoted attribute value may hold `>`. The selector must stand in the
/// opening tag itself, outside any quoted value, so another form earlier on
/// the page is not taken in; the match ends at the first `</form>` after
/// that tag.
pub open spec fn form_pattern_of(name: Seq<char>) -> Seq<char> {
    "<form(?:[^>\"']|\"[^\"]*\"|'[^']*')*data-drupal-selector=\""@ + name
        + "\"(?:[^>\"']|\"[^\"]*\"|'[^']*')*>(.*?)</form>"@
}

/// The pattern that finds the value of the form element named `name`:
/// `name="NAME" value=['"](.*?)['"]`, with `name` put in as it is.
pub open spec fn form_value_pattern_of(name: Seq<char>) -> Seq<char> {
    "name=\""@ + name + "\" value=['\"](.*?)['\"]"@
}

/// What `get_form` gives back: the whole first match of the form pattern
/// in the page with its line feeds taken out.
pub open spec fn form_in(html: Seq<char>, name: Seq<char>) -> Option<Seq<char>> {
    regex_capture(form_pattern_of(name), without_newlines(html), 0)
}

/// What `get_form_value` gives back: the first group of the first match of
/// the value pattern in the form's HTML as it is.
pub open spec fn form_value_in(form_html: Seq<char>, name: Seq<char>) -> Option<Seq<char>> {
    regex_capture(form_value_pattern_of(name), form_html, 1)
}

/// Builds the source of the pattern that finds the form named `name`.
pub fn form_pattern(name: &str) -> (r: String)
    ensures
        r@ == form_pattern_of(name@),
{
    let mut r = "<form(?:[^>\"']|\"[^\"]*\"|'[^']*')*data-drupal-selector=\"".to_owned();
    r.append(name);
    r.append("\"(?:[^>\"']|\"[^\"]*\"|'[^']*')*>(.*?)</form>");
    r
}

/// Builds the source of the pattern that finds the value of the form
/// element named `name`.
pub fn form_value_pattern(name: &str) -> (r: String)
    ensures
        r@ == form_value_pattern_of(name@),
{
    let mut r = "name=\"".to_owned();
    r.append(name);
    r.append("\" value=['\"](.*?)['\"]");
    r
}

/// Gets the specific form identified by `data-drupal-selector`: once line
/// feeds are taken out of `html`, the whole of the first `<form` tag that
/// carries the selector, through the first `</form>` after it. The form's
/// name goes into the pattern unescaped, so a name that breaks the pattern
/// is refused by `requires` (see `try_get_form` for one that checks).
pub fn get_form(html: &str, name: &str) -> (r: Option<String>)
    requires
        regex_compiles(form_pattern_of(name@)),
    ensures
        opt_view(r) == form_in(html@, name@),
        opt_view(r) == regex_capture(form_pattern_of(name@), without_newlines(html@), 0),
        r matches Some(f) ==> is_infix_of(f@, without_newlines(html@)),
{
    let source = form_pattern(name);
    let line = remove_newlines(html);
    match Pattern::compile(source.as_str()) {
        Ok(pattern) => pattern.capture(line.as_str(), 0),
        Err(_) => None,
    }
}

/// `get_form`, first checking that the form's pattern compiles; `Err` exactly
/// where it does not.
pub fn try_get_form(html: &str, name: &str) -> (r: Result<Option<String>, PatternError>)
    ensures
        r is Err <==> !regex_compiles(form_pattern_of(name@)),
        r matches Ok(f) ==> opt_view(f) == form_in(html@, name@),
        r matches Ok(f) ==> opt_view(f) == regex_capture(
            form_pattern_of(name@),
            without_newlines(html@),
            0,
        ),
        r matches Ok(Some(f)) ==> is_infix_of(f@, without_newlines(html@)),
        r matches Err(e) ==> e == PatternError::Invalid,
{
    let source = form_pattern(name);
    match Pattern::compile(source.as_str()) {
        // The pattern compiles, which is what `get_form` requires.
        Ok(_) => Ok(get_form(html, name)),
        Err(e) => Err(e),
    }
}

/// Gets the value of the form element named `name`: the text between the
/// quotes after `name="NAME" value=` in the first match. The name goes into
/// the pattern unescaped, so a name that breaks the pattern is refused by
/// `requires` (see `try_get_form_value` for one that checks).
pub fn get_form_value(form_html: &str, name: &str) -> (r: Option<String>)
    requires
        regex_compiles(form_value_pattern_of(name@)),
    ensures
        opt_view(r) == form_value_in(form_html@, name@),
        opt_view(r) == regex_capture(form_value_pattern_of(name@), form_html@, 1),
        r matches Some(v) ==> is_infix_of(v@, form_html@),
{
    let source = form_value_pattern(name);
    match Pattern::compile(source.as_str()) {
        Ok(pattern) => pattern.capture(form_html, 1),
        Err(_) => None,
    }
}

/// `get_form_value`, first checking that the value's pattern compiles;
/// `Err` exactly where it does not.
pub fn try_get_form_value(form_html: &str, name: &str) -> (r: Result<Option<String>, PatternError>)
    ensures
        r is Err <==> !regex_compiles(form_value_pattern_of(name@)),
        r matches Ok(v) ==> opt_view(v) == form_value_in(form_html@, name@),
        r matches Ok(v) ==> opt_view(v) == regex_capture(form_value_pattern_of(name@), form_html@, 1),
        r matches Ok(Some(v)) ==> is_infix_of(v@, form_html@),
        r matches Err(e) ==> e == PatternError::Invalid,
{
    let source = form_value_pattern(name);
    match Pattern::compile(source.as_str()) {
        // The pattern compiles, which is what `get_form_value` requires.
        Ok(_) => Ok(get_form_value(form_html, name)),
        Err(e) => Err(e),
    }
}

} // verus!
