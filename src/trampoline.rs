use vstd::prelude::*;

verus! {

/// What a `Trampoline` holds, as mathematical values.
pub struct TrampolineView {
    pub name: Seq<char>,
    pub exe: Seq<char>,
    pub ident: Seq<char>,
    pub icon: Seq<char>,
    pub version: Seq<char>,
    pub keys: Seq<(Seq<char>, Seq<char>)>,
    pub raw: Seq<Seq<char>>,
    pub resources: Seq<Seq<char>>,
    pub hidpi: bool,
}

/// The view of a list of string pairs.
pub open spec fn pairs_view(v: Seq<(String, String)>) -> Seq<(Seq<char>, Seq<char>)> {
    v.map_values(|p: (String, String)| (p.0@, p.1@))
}

/// The view of a list of strings.
pub open spec fn strings_view(v: Seq<String>) -> Seq<Seq<char>> {
    v.map_values(|s: String| s@)
}

/// Builder for the description of an application bundle.
///
/// It collects the application's name, executable name, identifier, icon,
/// version, extra property-list entries, raw property-list fragments, resource
/// files and the high-resolution flag.
pub struct Trampoline {
    name: String,
    exe: String,
    ident: String,
    icon: String,
    version: String,
    keys: Vec<(String, String)>,
    plist_raw_strings: Vec<String>,
    resources: Vec<String>,
    hidpi: bool,
}

impl View for Trampoline {
    type V = TrampolineView;

    closed spec fn view(&self) -> TrampolineView {
        TrampolineView {
            name: self.name@,
            exe: self.exe@,
            ident: self.ident@,
            icon: self.icon@,
            version: self.version@,
            keys: pairs_view(self.keys@),
            raw: strings_view(self.plist_raw_strings@),
            resources: strings_view(self.resources@),
            hidpi: self.hidpi,
        }
    }
}

impl Trampoline {
    /// A new builder with the given name, executable name and identifier,
    /// version "1.0.0", high-resolution support on, and nothing else.
    pub fn new(name: &str, exe: &str, ident: &str) -> (r: Trampoline)
        ensures
            r@ == (TrampolineView {
                name: name@,
                exe: exe@,
                ident: ident@,
                icon: Seq::empty(),
                version: "1.0.0"@,
                keys: Seq::empty(),
                raw: Seq::empty(),
                resources: Seq::empty(),
                hidpi: true,
            }),
    {
        let r = Trampoline {
            name: name.to_owned(),
            exe: exe.to_owned(),
            ident: ident.to_owned(),
            icon: String::new(),
            version: "1.0.0".to_owned(),
            keys: Vec::new(),
            plist_raw_strings: Vec::new(),
            resources: Vec::new(),
            hidpi: true,
        };
        proof {
            assert(pairs_view(r.keys@) =~= Seq::empty());
            assert(strings_view(r.plist_raw_strings@) =~= Seq::empty());
            assert(strings_view(r.resources@) =~= Seq::empty());
        }
        r
    }

    /// The application name.
    pub(crate) fn name_ref(&self) -> (r: &String)
        ensures
            r@ == self@.name,
    {
        &self.name
    }

    /// The executable name.
    pub(crate) fn exe_ref(&self) -> (r: &String)
        ensures
            r@ == self@.exe,
    {
        &self.exe
    }

    /// The bundle identifier.
    pub(crate) fn ident_ref(&self) -> (r: &String)
        ensures
            r@ == self@.ident,
    {
        &self.ident
    }

    /// The icon file name.
    pub(crate) fn icon_ref(&self) -> (r: &String)
        ensures
            r@ == self@.icon,
    {
        &self.icon
    }

    /// The bundle version.
    pub(crate) fn version_ref(&self) -> (r: &String)
        ensures
            r@ == self@.version,
    {
        &self.version
    }

    /// The extra property-list entries, in the order given.
    pub(crate) fn keys_ref(&self) -> (r: &Vec<(String, String)>)
        ensures
            pairs_view(r@) == self@.keys,
    {
        &self.keys
    }

    /// The raw property-list fragments, in the order given.
    pub(crate) fn raw_ref(&self) -> (r: &Vec<String>)
        ensures
            strings_view(r@) == self@.raw,
    {
        &self.plist_raw_strings
    }

    /// The resource file paths, in the order given.
    pub(crate) fn resources_ref(&self) -> (r: &Vec<String>)
        ensures
            strings_view(r@) == self@.resources,
    {
        &self.resources
    }

    /// Whether high-resolution support is declared.
    pub(crate) fn hidpi_flag(&self) -> (r: bool)
        ensures
            r == self@.hidpi,
    {
        self.hidpi
    }

    /// Sets the application name, as given to `new`.
    pub fn name(&mut self, name: &str) -> (r: &mut Self)
        ensures
            r@ == (TrampolineView { name: name@, ..old(self)@ }),
            *final(self) == *final(r),
    {
        self.name = name.to_owned();
        self
    }

    /// Sets the executable name, as given to `new`.
    pub fn exe(&mut self, exe: &str) -> (r: &mut Self)
        ensures
            r@ == (TrampolineView { exe: exe@, ..old(self)@ }),
            *final(self) == *final(r),
    {
        self.exe = exe.to_owned();
        self
    }

    /// Sets the bundle identifier, as given to `new`.
    pub fn ident(&mut self, ident: &str) -> (r: &mut Self)
        ensures
            r@ == (TrampolineView { ident: ident@, ..old(self)@ }),
            *final(self) == *final(r),
    {
        self.ident = ident.to_owned();
        self
    }

    /// Sets the icon file name, a file of the bundle's resources.
    pub fn icon(&mut self, icon: &str) -> (r: &mut Self)
        ensures
            r@ == (TrampolineView { icon: icon@, ..old(self)@ }),
            *final(self) == *final(r),
    {
        self.icon = icon.to_owned();
        self
    }

    /// Sets the bundle version.
    pub fn version(&mut self, version: &str) -> (r: &mut Self)
        ensures
            r@ == (TrampolineView { version: version@, ..old(self)@ }),
            *final(self) == *final(r),
    {
        self.version = version.to_owned();
        self
    }

    /// Adds one property-list entry. The value is written as given, in the
    /// old-style property-list syntax; quoting is the caller's.
    pub fn plist_key(&mut self, key: &str, value: &str) -> (r: &mut Self)
        ensures
            r@ == (TrampolineView { keys: old(self)@.keys.push((key@, value@)), ..old(self)@ }),
            *final(self) == *final(r),
    {
        self.keys.push((key.to_owned(), value.to_owned()));
        proof {
            assert(pairs_view(self.keys@) =~= pairs_view(old(self).keys@).push((key@, value@)));
        }
        self
    }

    /// Adds several property-list entries, in order.
    pub fn plist_keys(&mut self, pairs: &Vec<(&str, &str)>) -> (r: &mut Self)
        ensures
            r@ == (TrampolineView {
                keys: old(self)@.keys + pairs@.map_values(|p: (&str, &str)| (p.0@, p.1@)),
                ..old(self)@
            }),
            *final(self) == *final(r),
    {
        let ghost added = pairs@.map_values(|p: (&str, &str)| (p.0@, p.1@));
        let mut i: usize = 0;
        while i < pairs.len()
            invariant
                0 <= i <= pairs.len(),
                added == pairs@.map_values(|p: (&str, &str)| (p.0@, p.1@)),
                self@ == (TrampolineView { keys: old(self)@.keys + added.subrange(0, i as int), ..old(self)@ }),
            decreases pairs.len() - i,
        {
            let (key, value) = pairs[i];
            let ghost before = pairs_view(self.keys@);
            self.keys.push((key.to_owned(), value.to_owned()));
            proof {
                assert(pairs_view(self.keys@) =~= before.push((key@, value@)));
                assert(added.subrange(0, i + 1) =~= added.subrange(0, i as int).push((key@, value@)));
            }
            i = i + 1;
        }
        proof {
            assert(added.subrange(0, i as int) =~= added);
        }
        self
    }

    /// Sets whether the bundle declares support for high-resolution displays.
    pub fn retina(&mut self, doit: bool) -> (r: &mut Self)
        ensures
            r@ == (TrampolineView { hidpi: doit, ..old(self)@ }),
            *final(self) == *final(r),
    {
        self.hidpi = doit;
        self
    }

    /// Adds a preformatted fragment, pasted into the property list verbatim.
    pub fn plist_raw_string(&mut self, s: String) -> (r: &mut Self)
        ensures
            r@ == (TrampolineView { raw: old(self)@.raw.push(s@), ..old(self)@ }),
            *final(self) == *final(r),
    {
        let ghost sv = s@;
        self.plist_raw_strings.push(s);
        proof {
            assert(strings_view(self.plist_raw_strings@) =~= strings_view(old(self).plist_raw_strings@).push(sv));
        }
        self
    }

    /// Adds a file, by path, to be copied into the bundle's resources.
    pub fn resource(&mut self, file: &str) -> (r: &mut Self)
        ensures
            r@ == (TrampolineView { resources: old(self)@.resources.push(file@), ..old(self)@ }),
            *final(self) == *final(r),
    {
        self.resources.push(file.to_owned());
        proof {
            assert(strings_view(self.resources@) =~= strings_view(old(self).resources@).push(file@));
        }
        self
    }

    /// Adds several resource files, in order.
    pub fn resources(&mut self, files: &Vec<&str>) -> (r: &mut Self)
        ensures
            r@ == (TrampolineView {
                resources: old(self)@.resources + files@.map_values(|f: &str| f@),
                ..old(self)@
            }),
            *final(self) == *final(r),
    {
        let ghost added = files@.map_values(|f: &str| f@);
        let mut i: usize = 0;
        while i < files.len()
            invariant
                0 <= i <= files.len(),
                added == files@.map_values(|f: &str| f@),
                self@ == (TrampolineView { resources: old(self)@.resources + added.subrange(0, i as int), ..old(self)@ }),
            decreases files.len() - i,
        {
            let file = files[i];
            let ghost before = strings_view(self.resources@);
            self.resources.push(file.to_owned());
            proof {
                assert(strings_view(self.resources@) =~= before.push(file@));
                assert(added.subrange(0, i + 1) =~= added.subrange(0, i as int).push(file@));
            }
            i = i + 1;
        }
        proof {
            assert(added.subrange(0, i as int) =~= added);
        }
        self
    }
}

} // verus!
