//! Emoji shortcodes: `:<name>:` tokens whose name the emoji table knows are
//! replaced by the emoji itself; the others are left as they are.

use vstd::prelude::*;

verus! {

/// The regular expression of a shortcode token: a run of word characters
/// between two colons, the run being the first capture group.
pub const SHORTCODE_PATTERN: &'static str = ":(\\w+):";

/// The emoji that the table gives the shortcode `name`, if any.
pub uninterp spec fn glyph_of(name: Seq<char>) -> Option<Seq<char>>;

/// The pieces of a text between successive matches of a regular
/// expression, as `Regex::split` yields them.
pub uninterp spec fn split_pieces(pattern: Seq<char>, text: Seq<char>) -> Seq<Seq<char>>;

/// The first capture group of each successive match of a regular
/// expression in a text.
pub uninterp spec fn capture_names(pattern: Seq<char>, text: Seq<char>) -> Seq<Seq<char>>;

/// Relies on `emojis::get_by_shortcode` and `Emoji::as_str`: the emoji of a
/// shortcode, when the table has one.
#[verifier::external_body]
fn lookup_shortcode(name: &str) -> (r: Option<String>)
    ensures
        r is Some == glyph_of(name@) is Some,
        r is Some ==> r->0@ == glyph_of(name@)->0,
{
    emojis::get_by_shortcode(name).map(|e| e.as_str().to_string())
}

/// Relies on `regex::Regex::new`, `Regex::split` and `Regex::captures_iter`.
/// The shortcode pattern is valid syntax, so it compiles. `split` yields the
/// text before the first match, between each two matches, and after the last
/// one: one piece more than there are matches, and the whole text when there
/// is none. `captures_iter` walks the same matches, and the first capture
/// group, which takes part in every match of this pattern, is kept of each.
#[verifier::external_body]
fn shortcode_parts(pattern: &str, text: &str) -> (r: (Vec<String>, Vec<String>))
    requires
        pattern@ == SHORTCODE_PATTERN@,
    ensures
        r.0.deep_view() == split_pieces(pattern@, text@),
        r.1.deep_view() == capture_names(pattern@, text@),
        r.0@.len() == r.1@.len() + 1,
        r.1@.len() == 0 ==> r.0@[0]@ == text@,
{
    let re = regex::Regex::new(pattern).unwrap();
    let pieces = re.split(text).map(|p| p.to_string()).collect();
    let names = re.captures_iter(text).map(|c| c[1].to_string()).collect();
    (pieces, names)
}

/// What the token `:<name>:` becomes: its emoji, or the token itself when
/// the table has none.
pub open spec fn shortcode_text(name: Seq<char>) -> Seq<char> {
    match glyph_of(name) {
        Some(g) => g,
        None => ":"@ + name + ":"@,
    }
}

/// The first piece, followed for each of the first `k` names by what its
/// token becomes and the piece after it.
pub open spec fn spliced(pieces: Seq<Seq<char>>, names: Seq<Seq<char>>, k: nat) -> Seq<char>
    decreases k,
{
    if k == 0 {
        pieces[0]
    } else {
        spliced(pieces, names, (k - 1) as nat) + shortcode_text(names[k - 1]) + pieces[k as int]
    }
}

/// A text with its shortcodes resolved: unchanged when no token stands in
/// it, else its pieces between tokens joined by what each token becomes.
pub open spec fn emojis_resolved(text: Seq<char>) -> Seq<char> {
    let names = capture_names(SHORTCODE_PATTERN@, text);
    if names.len() == 0 {
        text
    } else {
        spliced(split_pieces(SHORTCODE_PATTERN@, text), names, names.len())
    }
}

/// The replacement of one shortcode token whose name is `name`.
pub fn resolve_shortcode(name: &str) -> (r: String)
    ensures
        r@ == shortcode_text(name@),
{
    match lookup_shortcode(name) {
        Some(g) => g,
        None => {
            let mut s = String::from_str(":");
            s.append(name);
            s.append(":");
            s
        },
    }
}

/// Joins the pieces of a text that lie around its tokens, putting in place
/// of each token what `resolve_shortcode` makes of its name.
pub fn splice_shortcodes(pieces: &Vec<String>, names: &Vec<String>) -> (r: String)
    requires
        pieces@.len() == names@.len() + 1,
    ensures
        r@ == spliced(pieces.deep_view(), names.deep_view(), names@.len()),
{
    let mut out = pieces[0].clone();
    let mut i: usize = 0;
    while i < names.len()
        invariant
            pieces@.len() == names@.len() + 1,
            i <= names@.len(),
            out@ == spliced(pieces.deep_view(), names.deep_view(), i as nat),
        decreases names@.len() - i,
    {
        let token = resolve_shortcode(names[i].as_str());
        out.append(token.as_str());
        out.append(pieces[i + 1].as_str());
        proof {
            assert(names.deep_view()[i as int] == names@[i as int]@);
            assert(pieces.deep_view()[i + 1] == pieces@[i + 1]@);
        }
        i = i + 1;
    }
    out
}

/// Resolves every shortcode of `text`.
pub fn resolve_emojis(text: &str) -> (r: String)
    ensures
        r@ == emojis_resolved(text@),
{
    let (pieces, names) = shortcode_parts(SHORTCODE_PATTERN, text);
    if names.len() == 0 {
        String::from_str(text)
    } else {
        splice_shortcodes(&pieces, &names)
    }
}

/// A text in which no shortcode token stands comes out of resolution as it
/// went in, and resolving it again changes nothing.
pub proof fn lemma_resolution_idempotent_without_tokens(text: Seq<char>)
    requires
        capture_names(SHORTCODE_PATTERN@, text).len() == 0,
    ensures
        emojis_resolved(text) == text,
        emojis_resolved(emojis_resolved(text)) == emojis_resolved(text),
{
}

} // verus!
