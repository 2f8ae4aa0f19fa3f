//! What `ract pkg` reads from a project and writes for `cargo-packager`.
use vstd::prelude::*;

use crate::common::same_text;
use crate::common::toml::{
    toml_get_str, toml_get_str_list, toml_list_view, toml_parses, toml_set_top_list,
    toml_set_top_str, toml_str_at, toml_str_list_at, toml_with_top_list, toml_with_top_str,
    TomlStr,
};

verus! {

broadcast use vstd::string::group_string_axioms;

/// What `ract pkg` does once `cargo-packager` is there.
#[derive(Debug, Clone, Copy, PartialEq, Eq, Structural)]
pub enum PackagerStep {
    /// write a `Packager.toml` (and the files it needs), then maybe package
    Init,
    /// package with the configuration already there
    Skip,
}

/// The step the user chose: `init` or `skip`; anything else is `Invalid option`.
pub fn packager_option(option: &str) -> (r: Result<PackagerStep, String>)
    ensures
        option@ == "init"@ ==> r == Ok::<PackagerStep, String>(PackagerStep::Init),
        option@ == "skip"@ ==> r == Ok::<PackagerStep, String>(PackagerStep::Skip),
        option@ != "init"@ && option@ != "skip"@ ==> (r matches Err(m) && m@ == "Invalid option"@),
{
    proof {
        reveal_strlit("init");
        reveal_strlit("skip");
        assert("init"@[0] == 'i');
        assert("skip"@[0] == 's');
    }
    if same_text(option, "init") {
        Ok(PackagerStep::Init)
    } else if same_text(option, "skip") {
        Ok(PackagerStep::Skip)
    } else {
        Err("Invalid option".to_string())
    }
}

/// The `[package]` of a `Cargo.toml`, as far as packaging needs it.
#[derive(Debug, Clone)]
pub struct CargoPackage {
    pub name: String,
    pub version: String,
    pub authors: Option<Vec<String>>,
    pub description: Option<String>,
}

/// Whether the `[package]` of a `Cargo.toml` (its text is `c`) can be read
/// for packaging: where it is TOML, `name` and `version` are strings, every
/// author (where `authors` is an array) is a string, and there is a
/// `description` entry.
pub open spec fn package_readable(c: Seq<char>) -> bool {
    toml_parses(c) ==> {
        &&& toml_str_at(c, "package"@, "name"@) matches Some(Some(_))
        &&& toml_str_at(c, "package"@, "version"@) matches Some(Some(_))
        &&& toml_str_list_at(c, "package"@, "authors"@) is Some
        &&& (toml_str_list_at(c, "package"@, "authors"@) matches Some(Some(items)) ==> forall|i: int|
            0 <= i < items.len() ==> #[trigger] items[i] is Some)
        &&& toml_str_at(c, "package"@, "description"@) is Some
    }
}

/// The authors as read: `None` where there is no array of them.
pub open spec fn authors_view(a: Option<Vec<String>>) -> Option<Seq<Seq<char>>> {
    match a {
        None => None,
        Some(v) => Some(v@.map_values(|s: String| s@)),
    }
}

/// The authors of a readable `[package]`.
pub open spec fn authors_of(c: Seq<char>) -> Option<Seq<Seq<char>>> {
    match toml_str_list_at(c, "package"@, "authors"@) {
        Some(Some(items)) => Some(items.map_values(|i: Option<Seq<char>>| i->Some_0)),
        _ => None,
    }
}

/// The description of a readable `[package]`: the string, where it is one.
pub open spec fn description_of(c: Seq<char>) -> Option<Seq<char>> {
    match toml_str_at(c, "package"@, "description"@) {
        Some(Some(s)) => Some(s),
        _ => None,
    }
}

/// Reads name, version, authors and description from the `[package]` of a
/// `Cargo.toml` whose text is `cargo_toml`.  A text that is not TOML is an
/// error (its parser's message).
pub fn read_package(cargo_toml: &str) -> (r: Result<CargoPackage, String>)
    requires
        package_readable(cargo_toml@),
    ensures
        r is Ok <==> toml_parses(cargo_toml@),
        r matches Ok(p) ==> {
            &&& toml_str_at(cargo_toml@, "package"@, "name"@) == Some(Some(p.name@))
            &&& toml_str_at(cargo_toml@, "package"@, "version"@) == Some(Some(p.version@))
            &&& authors_view(p.authors) == authors_of(cargo_toml@)
            &&& match p.description {
                Some(d) => description_of(cargo_toml@) == Some(d@),
                None => description_of(cargo_toml@) is None,
            }
        },
{
    let name = match toml_get_str(cargo_toml, "package", "name") {
        Err(e) => {
            return Err(e);
        },
        Ok(TomlStr::Found(s)) => s,
        Ok(_) => {
            return Err(String::new());
        },
    };
    let version = match toml_get_str(cargo_toml, "package", "version") {
        Ok(TomlStr::Found(s)) => s,
        Ok(_) | Err(_) => {
            return Err(String::new());
        },
    };
    let authors: Option<Vec<String>> = match toml_get_str_list(cargo_toml, "package", "authors") {
        Ok(Some(Some(items))) => {
            let ghost listed = toml_list_view(Some(Some(items)));
            let mut names: Vec<String> = Vec::new();
            let mut i: usize = 0;
            while i < items.len()
                invariant
                    i <= items.len(),
                    listed == toml_list_view(Some(Some(items))),
                    listed == toml_str_list_at(cargo_toml@, "package"@, "authors"@),
                    package_readable(cargo_toml@),
                    toml_parses(cargo_toml@),
                    names@.len() == i,
                    forall|j: int| 0 <= j < i ==> (#[trigger] names@[j])@ == items@[j]->Some_0@,
                decreases items.len() - i,
            {
                match &items[i] {
                    Some(s) => {
                        names.push(s.clone());
                    },
                    None => {
                        assert(listed->Some_0->Some_0[i as int] is Some);
                        assert(false);
                        return Err(String::new());
                    },
                }
                i = i + 1;
            }
            proof {
                let want = authors_of(cargo_toml@)->Some_0;
                assert(names@.map_values(|s: String| s@) =~= want);
            }
            Some(names)
        },
        Ok(_) | Err(_) => None,
    };
    let description = match toml_get_str(cargo_toml, "package", "description") {
        Ok(TomlStr::Found(s)) => Some(s),
        Ok(_) | Err(_) => None,
    };
    Ok(CargoPackage { name, version, authors, description })
}

/// Whether every entry is there.
fn all_present(items: &Vec<Option<String>>) -> (b: bool)
    ensures
        b == (forall|j: int| 0 <= j < items@.len() ==> (#[trigger] items@[j]) is Some),
{
    let mut i: usize = 0;
    while i < items.len()
        invariant
            i <= items.len(),
            forall|j: int| 0 <= j < i ==> (#[trigger] items@[j]) is Some,
        decreases items.len() - i,
    {
        if items[i].is_none() {
            return false;
        }
        i = i + 1;
    }
    true
}

/// `read_package` where the `[package]` can be read; `None` where it is
/// TOML but lacks what packaging reads.
pub fn try_read_package(cargo_toml: &str) -> (r: Option<Result<CargoPackage, String>>)
    ensures
        r is Some <==> package_readable(cargo_toml@),
        r matches Some(res) ==> {
            &&& res is Ok <==> toml_parses(cargo_toml@)
            &&& res matches Ok(p) ==> {
                &&& toml_str_at(cargo_toml@, "package"@, "name"@) == Some(Some(p.name@))
                &&& toml_str_at(cargo_toml@, "package"@, "version"@) == Some(Some(p.version@))
                &&& authors_view(p.authors) == authors_of(cargo_toml@)
                &&& match p.description {
                    Some(d) => description_of(cargo_toml@) == Some(d@),
                    None => description_of(cargo_toml@) is None,
                }
            }
        },
{
    let readable = match toml_get_str(cargo_toml, "package", "name") {
        Err(_) => true,
        Ok(name) => {
            let version = toml_get_str(cargo_toml, "package", "version");
            let authors = toml_get_str_list(cargo_toml, "package", "authors");
            let description = toml_get_str(cargo_toml, "package", "description");
            let authors_ok = match &authors {
                Ok(Some(Some(items))) => {
                    let ok = all_present(items);
                    proof {
                        let listed = toml_str_list_at(cargo_toml@, "package"@, "authors"@)->Some_0->Some_0;
                        assert(listed.len() == items@.len());
                        assert(forall|j: int|
                            0 <= j < items@.len() ==> (#[trigger] listed[j] is Some) == (items@[j] is Some));
                        if ok {
                            assert forall|i: int| 0 <= i < listed.len() implies #[trigger] listed[i] is Some by {
                                assert(items@[i] is Some);
                            }
                        } else {
                            let k = choose|k: int| 0 <= k < items@.len() && !(items@[k] is Some);
                            assert(!(listed[k] is Some));
                        }
                    }
                    ok
                },
                Ok(Some(None)) => true,
                _ => false,
            };
            let name_ok = matches!(name, TomlStr::Found(_));
            let version_ok = matches!(version, Ok(TomlStr::Found(_)));
            let description_ok = match description {
                Ok(TomlStr::Missing) => false,
                _ => true,
            };
            name_ok && version_ok && authors_ok && description_ok
        },
    };
    if readable {
        Some(read_package(cargo_toml))
    } else {
        None
    }
}

/// The identifier offered for a product named `name`: `com.` and the name.
pub fn default_identifier(name: &str) -> (s: String)
    ensures
        s@ == "com."@ + name@,
{
    let mut s = "com.".to_string();
    s.append(name);
    s
}

/// The answers to the packaging questions.
#[derive(Debug, Clone)]
pub struct PackageAnswers {
    pub product_name: String,
    pub identifier: String,
    /// the path of the license file, unless skipped
    pub license: Option<String>,
    pub publisher: Option<String>,
    pub copyright: Option<String>,
    pub homepage: Option<String>,
}

/// The configuration `cargo-packager` is given.
#[derive(Debug, Clone)]
pub struct PackageConf {
    pub name: String,
    pub version: String,
    pub product_name: String,
    pub identifier: String,
    pub authors: Option<Vec<String>>,
    pub license: Option<String>,
    pub publisher: Option<String>,
    pub description: Option<String>,
    pub long_description: Option<String>,
    pub copyright: Option<String>,
    pub homepage: Option<String>,
}

impl PackageConf {
    pub fn new(
        name: String,
        version: String,
        product_name: String,
        identifier: String,
        authors: Option<Vec<String>>,
        license: Option<String>,
    ) -> (c: Self)
        ensures
            c.name == name,
            c.version == version,
            c.product_name == product_name,
            c.identifier == identifier,
            c.authors == authors,
            c.license == license,
            c.publisher is None,
            c.description is None,
            c.long_description is None,
            c.copyright is None,
            c.homepage is None,
    {
        PackageConf {
            name,
            version,
            product_name,
            identifier,
            authors,
            license,
            publisher: None,
            description: None,
            long_description: None,
            copyright: None,
            homepage: None,
        }
    }
}

/// The configuration for a package read from `Cargo.toml` and the user's
/// answers: the description is also the long description.
pub fn package_conf(package: CargoPackage, answers: PackageAnswers) -> (c: PackageConf)
    ensures
        c.name == package.name,
        c.version == package.version,
        c.authors == package.authors,
        c.product_name == answers.product_name,
        c.identifier == answers.identifier,
        c.license == answers.license,
        c.publisher == answers.publisher,
        c.copyright == answers.copyright,
        c.homepage == answers.homepage,
        c.description == package.description,
        c.long_description == package.description,
{
    let mut conf = PackageConf::new(
        package.name,
        package.version,
        answers.product_name,
        answers.identifier,
        package.authors,
        answers.license,
    );
    conf.publisher = answers.publisher;
    conf.description = match &package.description {
        Some(d) => Some(d.clone()),
        None => None,
    };
    conf.long_description = package.description;
    conf.copyright = answers.copyright;
    conf.homepage = answers.homepage;
    conf
}

/// Keys and string values as the spec functions write them.
pub open spec fn pairs_view(v: Seq<(String, String)>) -> Seq<(Seq<char>, Seq<char>)> {
    v.map_values(|p: (String, String)| (p.0@, p.1@))
}

/// One entry `key = value` where there is a value, none otherwise.
pub open spec fn optional_entry(key: Seq<char>, value: Option<String>) -> Seq<(Seq<char>, Seq<char>)> {
    match value {
        Some(v) => seq![(key, v@)],
        None => Seq::empty(),
    }
}

/// The string entries of `Packager.toml` for a configuration, in order:
/// name, version, product name and identifier, then whichever of license
/// file, publisher, description, long description, copyright and homepage
/// are given.
pub open spec fn packager_entries(c: PackageConf) -> Seq<(Seq<char>, Seq<char>)> {
    seq![
        ("name"@, c.name@),
        ("version"@, c.version@),
        ("product-name"@, c.product_name@),
        ("identifier"@, c.identifier@),
    ] + optional_entry("license-file"@, c.license) + optional_entry("publisher"@, c.publisher)
        + optional_entry("description"@, c.description) + optional_entry(
        "long-description"@,
        c.long_description,
    ) + optional_entry("copyright"@, c.copyright) + optional_entry("homepage"@, c.homepage)
}

/// The document `content` with each entry set at its top level, one after
/// the other; `None` where a step meets a text that is not TOML.
pub open spec fn with_entries(content: Seq<char>, entries: Seq<(Seq<char>, Seq<char>)>) -> Option<Seq<char>>
    decreases entries.len(),
{
    if entries.len() == 0 {
        Some(content)
    } else {
        match with_entries(content, entries.drop_last()) {
            None => None,
            Some(t) => if toml_parses(t) {
                Some(toml_with_top_str(t, entries.last().0, entries.last().1))
            } else {
                None
            },
        }
    }
}

/// The text of `Packager.toml` for a configuration: its string entries
/// (see `packager_entries`) written into an empty document, then the
/// authors, as an array, where there are any.
pub open spec fn packager_text(c: PackageConf) -> Option<Seq<char>> {
    match with_entries(Seq::empty(), packager_entries(c)) {
        None => None,
        Some(t) => match c.authors {
            None => Some(t),
            Some(a) => if toml_parses(t) {
                Some(toml_with_top_list(t, "authors"@, a@.map_values(|x: String| x@)))
            } else {
                None
            },
        },
    }
}

fn push_optional(v: &mut Vec<(String, String)>, key: &str, value: &Option<String>)
    ensures
        pairs_view(final(v)@) == pairs_view(old(v)@) + optional_entry(key@, *value),
{
    match value {
        Some(s) => {
            let ghost before = v@;
            v.push((key.to_string(), s.clone()));
            assert(pairs_view(v@) =~= pairs_view(before) + optional_entry(key@, *value));
        },
        None => {
            assert(pairs_view(v@) =~= pairs_view(v@) + optional_entry(key@, *value));
        },
    }
}

/// The string entries of `Packager.toml`, as `packager_entries` says.
fn entries_of(c: &PackageConf) -> (v: Vec<(String, String)>)
    ensures
        pairs_view(v@) == packager_entries(*c),
{
    let mut v: Vec<(String, String)> = Vec::new();
    v.push(("name".to_string(), c.name.clone()));
    v.push(("version".to_string(), c.version.clone()));
    v.push(("product-name".to_string(), c.product_name.clone()));
    v.push(("identifier".to_string(), c.identifier.clone()));
    let ghost head = pairs_view(v@);
    assert(head =~= seq![
        ("name"@, c.name@),
        ("version"@, c.version@),
        ("product-name"@, c.product_name@),
        ("identifier"@, c.identifier@),
    ]);
    push_optional(&mut v, "license-file", &c.license);
    push_optional(&mut v, "publisher", &c.publisher);
    push_optional(&mut v, "description", &c.description);
    push_optional(&mut v, "long-description", &c.long_description);
    push_optional(&mut v, "copyright", &c.copyright);
    push_optional(&mut v, "homepage", &c.homepage);
    v
}

/// Once a step fails, writing all the entries fails.
proof fn lemma_entries_fail(content: Seq<char>, entries: Seq<(Seq<char>, Seq<char>)>, n: int)
    requires
        0 <= n <= entries.len(),
        with_entries(content, entries.take(n)) is None,
    ensures
        with_entries(content, entries) is None,
    decreases entries.len() - n,
{
    if n < entries.len() {
        assert(entries.take(n + 1).drop_last() =~= entries.take(n));
        lemma_entries_fail(content, entries, n + 1);
    } else {
        assert(entries.take(n) =~= entries);
    }
}

/// Setting the entries `a + b` is setting `a`, then `b` on what that gave.
proof fn lemma_with_entries_append(content: Seq<char>, a: Seq<(Seq<char>, Seq<char>)>, b: Seq<(Seq<char>, Seq<char>)>)
    ensures
        with_entries(content, a + b) == (match with_entries(content, a) {
            None => None,
            Some(t) => with_entries(t, b),
        }),
    decreases b.len(),
{
    if b.len() == 0 {
        assert(a + b =~= a);
        if let Some(t) = with_entries(content, a) {
            assert(with_entries(t, b) == Some(t));
        }
    } else {
        lemma_with_entries_append(content, a, b.drop_last());
        assert((a + b).drop_last() =~= a + b.drop_last());
        assert((a + b).last() == b.last());
        if with_entries(content, a) is None {
            assert(with_entries(content, a + b) is None);
        }
    }
}

/// Whether the document `t` came from one whose top-level `key` was set to
/// `value`, after which only other keys were set.
pub open spec fn last_set_to(t: Seq<char>, key: Seq<char>, value: Seq<char>) -> bool {
    exists|p: Seq<char>, rest: Seq<(Seq<char>, Seq<char>)>|
        #![trigger with_entries(toml_with_top_str(p, key, value), rest)]
        toml_parses(p) && (forall|i: int| 0 <= i < rest.len() ==> (#[trigger] rest[i]).0 != key)
            && with_entries(toml_with_top_str(p, key, value), rest) == Some(t)
}

/// An entry set before entries with other keys is the last word on its key.
proof fn lemma_last_write(
    content: Seq<char>,
    pre: Seq<(Seq<char>, Seq<char>)>,
    e: (Seq<char>, Seq<char>),
    rest: Seq<(Seq<char>, Seq<char>)>,
    t: Seq<char>,
)
    requires
        with_entries(content, pre.push(e) + rest) == Some(t),
        forall|i: int| 0 <= i < rest.len() ==> (#[trigger] rest[i]).0 != e.0,
    ensures
        last_set_to(t, e.0, e.1),
{
    lemma_with_entries_append(content, pre.push(e), rest);
    assert(pre.push(e).drop_last() =~= pre);
    let p = with_entries(content, pre)->Some_0;
    assert(with_entries(toml_with_top_str(p, e.0, e.1), rest) == Some(t));
}

/// Whether the document `s` has its top-level `key` set to `value` last,
/// apart from the list of `authors` written after it where there is one.
pub open spec fn written_last(s: Seq<char>, authors: Option<Vec<String>>, key: Seq<char>, value: Seq<char>) -> bool {
    match authors {
        None => last_set_to(s, key, value),
        Some(a) => exists|t0: Seq<char>|
            #![trigger last_set_to(t0, key, value)]
            last_set_to(t0, key, value) && s == toml_with_top_list(t0, "authors"@, a@.map_values(|x: String| x@)),
    }
}

/// The document written for a configuration, before its authors.
pub open spec fn entries_text(c: PackageConf) -> Option<Seq<char>> {
    with_entries(Seq::empty(), packager_entries(c))
}

/// Where the configuration has a description `d`, the `Packager.toml`
/// written for it has its top-level `description` set to `d`, and so is
/// its `long-description` where that is `l`: no later write sets either
/// key again; the authors, where there are any, are set last.
pub proof fn lemma_description_written(c: PackageConf)
    requires
        entries_text(c) is Some,
    ensures
        c.description matches Some(d) ==> last_set_to(entries_text(c)->Some_0, "description"@, d@),
        c.long_description matches Some(l) ==> last_set_to(entries_text(c)->Some_0, "long-description"@, l@),
        packager_text(c) == (match c.authors {
            None => entries_text(c),
            Some(a) => if toml_parses(entries_text(c)->Some_0) {
                Some(toml_with_top_list(entries_text(c)->Some_0, "authors"@, a@.map_values(|x: String| x@)))
            } else {
                None
            },
        }),
{
    reveal_strlit("description");
    reveal_strlit("long-description");
    reveal_strlit("copyright");
    reveal_strlit("homepage");
    let t = entries_text(c)->Some_0;
    let head = seq![
        ("name"@, c.name@),
        ("version"@, c.version@),
        ("product-name"@, c.product_name@),
        ("identifier"@, c.identifier@),
    ] + optional_entry("license-file"@, c.license) + optional_entry("publisher"@, c.publisher);
    let tail = optional_entry("copyright"@, c.copyright) + optional_entry("homepage"@, c.homepage);
    assert forall|i: int| 0 <= i < tail.len() implies (#[trigger] tail[i]).0 != "description"@ && tail[i].0 != "long-description"@ by {
        assert(tail[i].0 == "copyright"@ || tail[i].0 == "homepage"@);
    }
    if let Some(d) = c.description {
        let rest = optional_entry("long-description"@, c.long_description) + tail;
        assert forall|i: int| 0 <= i < rest.len() implies (#[trigger] rest[i]).0 != "description"@ by {
            if i < optional_entry("long-description"@, c.long_description).len() {
                assert(rest[i].0 == "long-description"@);
                assert("long-description"@.len() != "description"@.len());
            } else {
                assert(rest[i] == tail[i - optional_entry("long-description"@, c.long_description).len()]);
            }
        }
        assert(packager_entries(c) =~= head.push(("description"@, d@)) + rest);
        lemma_last_write(Seq::empty(), head, ("description"@, d@), rest, t);
    }
    if let Some(l) = c.long_description {
        let pre = head + optional_entry("description"@, c.description);
        assert(packager_entries(c) =~= pre.push(("long-description"@, l@)) + tail);
        lemma_last_write(Seq::empty(), pre, ("long-description"@, l@), tail, t);
    }
}

/// The text of `Packager.toml` for a configuration, as `packager_text`
/// says; an error where a step meets a text that is not TOML.
pub fn packager_toml(c: &PackageConf) -> (r: Result<String, String>)
    ensures
        match packager_text(*c) {
            Some(t) => r matches Ok(s) && s@ == t,
            None => r is Err,
        },
        r is Ok && c.description is Some ==> written_last(r->Ok_0@, c.authors, "description"@, c.description->Some_0@),
        r is Ok && c.long_description is Some ==> written_last(
            r->Ok_0@,
            c.authors,
            "long-description"@,
            c.long_description->Some_0@,
        ),
{
    let entries = entries_of(c);
    let ghost want = pairs_view(entries@);
    let mut text = String::new();
    let mut i: usize = 0;
    while i < entries.len()
        invariant
            i <= entries.len(),
            want == pairs_view(entries@),
            want == packager_entries(*c),
            with_entries(Seq::empty(), want.take(i as int)) == Some(text@),
        decreases entries.len() - i,
    {
        assert(want.take(i + 1).drop_last() =~= want.take(i as int));
        assert(want.take(i + 1).last() == want[i as int]);
        let (key, value) = &entries[i];
        match toml_set_top_str(text.as_str(), key.as_str(), value.as_str()) {
            Ok(next) => {
                text = next;
            },
            Err(e) => {
                proof {
                    lemma_entries_fail(Seq::empty(), want, i + 1);
                }
                return Err(e);
            },
        }
        i = i + 1;
    }
    assert(want.take(want.len() as int) =~= want);
    proof {
        lemma_description_written(*c);
        if c.description is Some {
            assert(last_set_to(text@, "description"@, c.description->Some_0@));
        }
        if c.long_description is Some {
            assert(last_set_to(text@, "long-description"@, c.long_description->Some_0@));
        }
    }
    match &c.authors {
        None => Ok(text),
        Some(a) => toml_set_top_list(text.as_str(), "authors", a),
    }
}

} // verus!
