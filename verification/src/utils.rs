//! Helpers shared by the commands: the file extension of a save file and the
//! scraping methods offered to the user.
use vstd::prelude::*;
use vstd::string::*;

use crate::run::{css_class_name, html_tag_name, id_name, method_named};
use crate::text::chars_of;

verus! {

/// Index of the last `'.'` of `s`, or `-1` where `s` holds none.
pub open spec fn last_dot(s: Seq<char>) -> int
    decreases s.len(),
{
    if s.len() == 0 {
        -1
    } else if s.last() == '.' {
        s.len() - 1
    } else {
        last_dot(s.drop_last())
    }
}

/// The extension of a file name: what follows its last `'.'`, or the whole
/// name where it holds no `'.'`.
pub open spec fn file_extension(s: Seq<char>) -> Seq<char> {
    s.subrange(last_dot(s) + 1, s.len() as int)
}

/// `last_dot` is the position of the last `'.'`, and nothing after it is one.
pub proof fn lemma_last_dot(s: Seq<char>)
    ensures
        -1 <= last_dot(s) < s.len(),
        last_dot(s) >= 0 ==> s[last_dot(s)] == '.',
        forall|j: int| last_dot(s) < j < s.len() ==> s[j] != '.',
    decreases s.len(),
{
    if s.len() > 0 && s.last() != '.' {
        let t = s.drop_last();
        lemma_last_dot(t);
        assert forall|j: int| last_dot(s) < j < s.len() implies s[j] != '.' by {
            if j < t.len() {
                assert(s[j] == t[j]);
            }
        }
    }
}

/// The extension of a name is the part after the last `'.'`: it holds no
/// `'.'`, it ends the name, and it is either the whole name or follows a `'.'`.
pub proof fn lemma_file_extension(s: Seq<char>)
    ensures
        file_extension(s).len() <= s.len(),
        file_extension(s) == s.subrange(s.len() - file_extension(s).len(), s.len() as int),
        forall|j: int|
            0 <= j < file_extension(s).len() ==> #[trigger] file_extension(s)[j] != '.',
        file_extension(s).len() < s.len() ==> s[s.len() - file_extension(s).len() - 1] == '.',
{
    lemma_last_dot(s);
}

/// Naming a file `name.ext`, with no `'.'` in `ext`, gives it the extension
/// `ext`, whatever `name` holds.
pub proof fn lemma_extension_of_dotted_name(name: Seq<char>, ext: Seq<char>)
    requires
        forall|j: int| 0 <= j < ext.len() ==> ext[j] != '.',
    ensures
        file_extension(name + seq!['.'] + ext) == ext,
    decreases ext.len(),
{
    let s = name + seq!['.'] + ext;
    if ext.len() == 0 {
        assert(s.drop_last() =~= name);
        assert(s.subrange(s.len() as int, s.len() as int) =~= ext);
    } else {
        lemma_extension_of_dotted_name(name, ext.drop_last());
        assert(s.drop_last() =~= name + seq!['.'] + ext.drop_last());
        lemma_last_dot(s.drop_last());
        assert(s.subrange(last_dot(s) + 1, s.len() as int) =~= ext);
    }
}

/// The extension of `filename`: the text after its last `'.'`, or the whole
/// name where it holds none.
pub fn split_file_extension(filename: &str) -> (r: String)
    ensures
        r@ == file_extension(filename@),
{
    let v = chars_of(filename);
    let mut i: usize = v.len();
    while i > 0 && v[i - 1] != '.'
        invariant
            v@ == filename@,
            i <= v.len(),
            forall|j: int| i <= j < v.len() ==> v@[j] != '.',
        decreases i,
    {
        i = i - 1;
    }
    proof {
        lemma_last_dot(filename@);
        let d = last_dot(filename@);
        if i > 0 {
            assert(v@[i - 1] == '.');
            assert(d >= i - 1);
            if d > i - 1 {
                assert(v@[d] == '.');
            }
        } else {
            if d >= 0 {
                assert(v@[d] == '.');
            }
        }
        assert(d == i - 1);
    }
    String::from_str(filename.substring_char(i, v.len()))
}

/// The scraping methods offered to the user, in order.
pub open spec fn scraper_options() -> Seq<Seq<char>> {
    seq![html_tag_name(), css_class_name(), id_name()]
}

/// The scraping methods offered to the user: `html-tag`, `css-class`, `id`.
pub fn get_scraper_option() -> (r: Vec<String>)
    ensures
        r.deep_view() == scraper_options(),
{
    proof {
        reveal_strlit("html-tag");
        reveal_strlit("css-class");
        reveal_strlit("id");
        assert("html-tag"@ =~= html_tag_name());
        assert("css-class"@ =~= css_class_name());
        assert("id"@ =~= id_name());
    }
    let mut options: Vec<String> = Vec::new();
    options.push(String::from_str("html-tag"));
    options.push(String::from_str("css-class"));
    options.push(String::from_str("id"));
    assert(options.deep_view() =~= scraper_options());
    options
}

/// The methods offered to the user are exactly the values of `scraping`
/// that a run recognises, and they name three different methods.
pub proof fn lemma_offered_options_are_the_methods(scraping: Seq<char>)
    ensures
        method_named(scraping) is Some <==> scraper_options().contains(scraping),
        method_named(scraper_options()[0]) != method_named(scraper_options()[1]),
        method_named(scraper_options()[0]) != method_named(scraper_options()[2]),
        method_named(scraper_options()[1]) != method_named(scraper_options()[2]),
{
    let o = scraper_options();
    assert(html_tag_name() != css_class_name()) by {
        assert(html_tag_name().len() != css_class_name().len());
    }
    assert(html_tag_name() != id_name()) by {
        assert(html_tag_name().len() != id_name().len());
    }
    assert(css_class_name() != id_name()) by {
        assert(css_class_name().len() != id_name().len());
    }
    if method_named(scraping) is Some {
        if scraping == html_tag_name() {
            assert(o[0] == scraping);
        } else if scraping == css_class_name() {
            assert(o[1] == scraping);
        } else {
            assert(o[2] == scraping);
        }
    }
    if o.contains(scraping) {
        let k = choose|k: int| 0 <= k < o.len() && o[k] == scraping;
        assert(k == 0 || k == 1 || k == 2);
    }
}

} // verus!
