use vstd::prelude::*;

verus! {

/// Who made an application and what it is.
#[derive(Debug, Clone, Copy, PartialEq, Eq, PartialOrd, Ord, Hash, Default)]
pub struct AppInfo<'a> {
    pub name: &'a str,
    pub version: &'a str,
    pub authors: &'a str,
    pub description: &'a str,
    pub license: &'a str,
}

/// The text of an optional field: empty when absent.
pub open spec fn or_empty(s: Option<&str>) -> Seq<char> {
    match s {
        Some(x) => x@,
        None => Seq::empty(),
    }
}

/// `head` followed by `tail`, or nothing when `tail` is empty.
pub open spec fn line_if(head: Seq<char>, tail: Seq<char>) -> Seq<char> {
    if tail.len() == 0 {
        Seq::empty()
    } else {
        head + tail
    }
}

/// "name vversion", then a line for each of authors, description and
/// license that is not empty.
pub open spec fn spec_app_text(
    name: Seq<char>,
    version: Seq<char>,
    authors: Seq<char>,
    description: Seq<char>,
    license: Seq<char>,
) -> Seq<char> {
    name + " v"@ + version + line_if("\n"@, authors) + line_if("\n"@, description)
        + line_if("\nLicense: "@, license)
}

/// `s` starts with `p`.
pub open spec fn starts_with(s: Seq<char>, p: Seq<char>) -> bool {
    p.len() <= s.len() && s.take(p.len() as int) == p
}

/// `s` ends with `p`.
pub open spec fn ends_with(s: Seq<char>, p: Seq<char>) -> bool {
    p.len() <= s.len() && s.skip(s.len() - p.len()) == p
}

/// The text of an application's information starts with "name vversion";
/// the license, when there is one, comes last, on its own line after
/// "License: "; otherwise the description comes last, on its own line; with
/// neither, the authors; and with nothing else, the text is just the first
/// line. When both a description and a license are given, the description
/// line comes right before the license line.
pub proof fn law_app_text_layout(
    name: Seq<char>,
    version: Seq<char>,
    authors: Seq<char>,
    description: Seq<char>,
    license: Seq<char>,
)
    ensures
        starts_with(spec_app_text(name, version, authors, description, license), name + " v"@ + version),
        license.len() > 0 ==> ends_with(spec_app_text(name, version, authors, description, license), "\nLicense: "@ + license),
        license.len() == 0 && description.len() > 0
            ==> ends_with(spec_app_text(name, version, authors, description, license), "\n"@ + description),
        license.len() == 0 && description.len() == 0 && authors.len() > 0
            ==> ends_with(spec_app_text(name, version, authors, description, license), "\n"@ + authors),
        license.len() == 0 && description.len() == 0 && authors.len() == 0
            ==> spec_app_text(name, version, authors, description, license) == name + " v"@ + version,
        license.len() > 0 && description.len() > 0
            ==> ends_with(spec_app_text(name, version, authors, description, license),
                "\n"@ + description + "\nLicense: "@ + license),
{
    let first = name + " v"@ + version;
    let a = line_if("\n"@, authors);
    let d = line_if("\n"@, description);
    let l = line_if("\nLicense: "@, license);
    let t = spec_app_text(name, version, authors, description, license);
    assert(t == first + a + d + l);
    assert(t.take(first.len() as int) =~= first);
    if license.len() > 0 {
        assert(t.skip(t.len() - l.len()) =~= l);
        if description.len() > 0 {
            assert(t.skip(t.len() - (d + l).len()) =~= d + l);
            assert(d + l =~= "\n"@ + description + "\nLicense: "@ + license);
        }
    } else if description.len() > 0 {
        assert(t.skip(t.len() - d.len()) =~= d);
    } else if authors.len() > 0 {
        assert(t.skip(t.len() - a.len()) =~= a);
    } else {
        assert(t =~= first);
    }
}

impl<'a> AppInfo<'a> {
    /// An application's information; a missing description or license is
    /// empty.
    pub fn new(
        name: &'a str,
        version: &'a str,
        authors: &'a str,
        description: Option<&'a str>,
        license: Option<&'a str>,
    ) -> (r: Self)
        ensures
            r.name@ == name@,
            r.version@ == version@,
            r.authors@ == authors@,
            r.description@ == or_empty(description),
            r.license@ == or_empty(license),
    {
        let d = match description {
            Some(x) => x,
            None => "",
        };
        let l = match license {
            Some(x) => x,
            None => "",
        };
        proof {
            reveal_strlit("");
        }
        AppInfo { name, version, authors, description: d, license: l }
    }

    /// This library's own information.
    pub fn lib_info() -> (r: AppInfo<'static>)
        ensures
            r.name@ == "rustmix"@,
            r.version@ == "0.1.0"@,
            r.authors@ == Seq::<char>::empty(),
            r.description@ == Seq::<char>::empty(),
            r.license@ == Seq::<char>::empty(),
    {
        proof {
            reveal_strlit("");
        }
        AppInfo { name: "rustmix", version: "0.1.0", authors: "", description: "", license: "" }
    }

    /// The information as text: "name vversion", then the authors, the
    /// description and "License: " with the license, each on a line of its
    /// own when not empty.
    pub fn to_string(&self) -> (r: String)
        ensures
            r@ == spec_app_text(self.name@, self.version@, self.authors@, self.description@, self.license@),
    {
        let mut r = self.name.to_owned();
        r.append(" v");
        r.append(self.version);
        if !self.authors.is_empty() {
            r.append("\n");
            r.append(self.authors);
        }
        if !self.description.is_empty() {
            r.append("\n");
            r.append(self.description);
        }
        if !self.license.is_empty() {
            r.append("\nLicense: ");
            r.append(self.license);
        }
        r
    }
}

} // verus!
