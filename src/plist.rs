use vstd::prelude::*;

use crate::trampoline::{pairs_view, strings_view, Trampoline, TrampolineView};

verus! {

/// One `key = value;` entry of a property list, as text.
pub type Entry = (Seq<char>, Seq<char>);

/// A value written as a double-quoted string literal.
pub open spec fn quoted(v: Seq<char>) -> Seq<char> {
    "\""@ + v + "\""@
}

/// The keys whose values always come from the bundle description itself.
pub open spec fn forbidden_keys() -> Seq<Seq<char>> {
    seq![
        "CFBundleName"@,
        "CFBundleDisplayName"@,
        "CFBundleIdentifier"@,
        "CFBundleExecutable"@,
        "CFBundleIconFile"@,
        "CFBundleVersion"@,
    ]
}

/// Whether `k` is one of the keys that callers cannot set.
pub open spec fn is_forbidden_key(k: Seq<char>) -> bool {
    k == "CFBundleName"@ || k == "CFBundleDisplayName"@ || k == "CFBundleIdentifier"@
        || k == "CFBundleExecutable"@ || k == "CFBundleIconFile"@ || k == "CFBundleVersion"@
}

/// The entries computed from the description, in the order they are written.
pub open spec fn system_entries(t: TrampolineView) -> Seq<Entry> {
    seq![
        ("CFBundleName"@, quoted(t.name)),
        ("CFBundleDisplayName"@, quoted(t.name)),
        ("CFBundleIdentifier"@, quoted(t.ident)),
        ("CFBundleExecutable"@, quoted(t.exe)),
        ("CFBundleIconFile"@, quoted(t.icon)),
        ("CFBundleVersion"@, quoted(t.version)),
    ]
}

/// The value the description gives to a forbidden key.
pub open spec fn system_value(t: TrampolineView, k: Seq<char>) -> Seq<char> {
    if k == "CFBundleName"@ || k == "CFBundleDisplayName"@ {
        quoted(t.name)
    } else if k == "CFBundleIdentifier"@ {
        quoted(t.ident)
    } else if k == "CFBundleExecutable"@ {
        quoted(t.exe)
    } else if k == "CFBundleIconFile"@ {
        quoted(t.icon)
    } else {
        quoted(t.version)
    }
}

/// The two entries that declare high-resolution support, when it is on.
pub open spec fn hidpi_entries(hidpi: bool) -> Seq<Entry> {
    if hidpi {
        seq![("NSPrincipalClass"@, "\"NSApplication\""@), ("NSHighResolutionCapable"@, "True"@)]
    } else {
        seq![]
    }
}

/// Entries written with these values unless the caller set the key.
pub open spec fn default_table() -> Seq<Entry> {
    seq![
        ("CFBundleInfoDictionaryVersion"@, "6.0"@),
        ("CFBundlePackageType"@, "APPL"@),
        ("CFBundleSignature"@, "xxxx"@),
        ("LSMinimumSystemVersion"@, "10.10.0"@),
    ]
}

/// Keeps the caller's entries whose key is not forbidden.
pub open spec fn not_forbidden() -> spec_fn(Entry) -> bool {
    |e: Entry| !is_forbidden_key(e.0)
}

/// Whether some entry of `keys` has key `k`.
pub open spec fn has_key(keys: Seq<Entry>, k: Seq<char>) -> bool {
    exists|i: int| 0 <= i < keys.len() && keys[i].0 == k
}

/// Keeps the default entries whose key the caller did not set.
pub open spec fn not_overridden(keys: Seq<Entry>) -> spec_fn(Entry) -> bool {
    |e: Entry| !has_key(keys, e.0)
}

/// Selects the entries with key `k`.
pub open spec fn key_is(k: Seq<char>) -> spec_fn(Entry) -> bool {
    |e: Entry| e.0 == k
}

/// All `key = value;` entries of the property list of `t`, in order: the
/// computed ones, the high-resolution pair, the caller's entries that are
/// allowed, and the defaults that the caller did not set.
pub open spec fn info_entries(t: TrampolineView) -> Seq<Entry> {
    system_entries(t) + hidpi_entries(t.hidpi) + t.keys.filter(not_forbidden())
        + default_table().filter(not_overridden(t.keys))
}

/// One entry as a line of text.
pub open spec fn entry_line(e: Entry) -> Seq<char> {
    "  "@ + e.0 + " = "@ + e.1 + ";\n"@
}

/// The lines of a list of entries.
pub open spec fn entry_lines(es: Seq<Entry>) -> Seq<char>
    decreases es.len(),
{
    if es.len() == 0 {
        Seq::empty()
    } else {
        entry_lines(es.drop_last()) + entry_line(es.last())
    }
}

/// Raw fragments, each followed by a line break.
pub open spec fn raw_lines(rs: Seq<Seq<char>>) -> Seq<char>
    decreases rs.len(),
{
    if rs.len() == 0 {
        Seq::empty()
    } else {
        raw_lines(rs.drop_last()) + rs.last() + "\n"@
    }
}

/// The property-list document for entries `es` and raw fragments `rs`.
pub open spec fn document(es: Seq<Entry>, rs: Seq<Seq<char>>) -> Seq<char> {
    "{\n"@ + entry_lines(es) + raw_lines(rs) + "}\n"@
}

/// The whole `Info.plist` text of the bundle described by `t`.
pub open spec fn info_text(t: TrampolineView) -> Seq<char> {
    document(info_entries(t), t.raw)
}

/// The keys that callers cannot set, in the order they are written.
pub fn forbidden_plist() -> (r: Vec<String>)
    ensures
        strings_view(r@) == forbidden_keys(),
{
    let r = vec![
        "CFBundleName".to_owned(),
        "CFBundleDisplayName".to_owned(),
        "CFBundleIdentifier".to_owned(),
        "CFBundleExecutable".to_owned(),
        "CFBundleIconFile".to_owned(),
        "CFBundleVersion".to_owned(),
    ];
    proof {
        assert(strings_view(r@) =~= forbidden_keys());
    }
    r
}

/// The entries that have default values, which callers may override.
pub fn default_plist() -> (r: Vec<(String, String)>)
    ensures
        pairs_view(r@) == default_table(),
{
    let r = vec![
        ("CFBundleInfoDictionaryVersion".to_owned(), "6.0".to_owned()),
        ("CFBundlePackageType".to_owned(), "APPL".to_owned()),
        ("CFBundleSignature".to_owned(), "xxxx".to_owned()),
        ("LSMinimumSystemVersion".to_owned(), "10.10.0".to_owned()),
    ];
    proof {
        assert(pairs_view(r@) =~= default_table());
    }
    r
}

/// Whether `key` is one of the keys that callers cannot set.
pub fn is_forbidden(key: &String) -> (r: bool)
    ensures
        r == is_forbidden_key(key@),
{
    *key == "CFBundleName".to_owned() || *key == "CFBundleDisplayName".to_owned()
        || *key == "CFBundleIdentifier".to_owned() || *key == "CFBundleExecutable".to_owned()
        || *key == "CFBundleIconFile".to_owned() || *key == "CFBundleVersion".to_owned()
}

fn contains_key(keys: &Vec<(String, String)>, k: &String) -> (r: bool)
    ensures
        r == has_key(pairs_view(keys@), k@),
{
    let ghost kv = pairs_view(keys@);
    let mut i: usize = 0;
    while i < keys.len()
        invariant
            0 <= i <= keys.len(),
            kv == pairs_view(keys@),
            forall|j: int| 0 <= j < i ==> kv[j].0 != k@,
        decreases keys.len() - i,
    {
        if keys[i].0 == *k {
            assert(kv[i as int].0 == k@);
            return true;
        }
        i = i + 1;
    }
    false
}

fn quote(v: &String) -> (r: String)
    ensures
        r@ == quoted(v@),
{
    let mut s = "\"".to_owned();
    s.append(v.as_str());
    s.append("\"");
    s
}

fn push_entry(out: &mut Vec<(String, String)>, k: String, v: String)
    ensures
        pairs_view(final(out)@) == pairs_view(old(out)@).push((k@, v@)),
{
    let ghost e = (k@, v@);
    out.push((k, v));
    proof {
        assert(pairs_view(out@) =~= pairs_view(old(out)@).push(e));
    }
}

/// Appends to `out` the entries of `src` that `keep` selects, where `keep`
/// is either "key not forbidden" or "key not set in `keys`".
fn push_filtered(
    out: &mut Vec<(String, String)>,
    src: &Vec<(String, String)>,
    keys: &Vec<(String, String)>,
    by_override: bool,
)
    ensures
        pairs_view(final(out)@) == pairs_view(old(out)@) + pairs_view(src@).filter(
            if by_override {
                not_overridden(pairs_view(keys@))
            } else {
                not_forbidden()
            },
        ),
{
    let ghost keep = if by_override {
        not_overridden(pairs_view(keys@))
    } else {
        not_forbidden()
    };
    let ghost base = pairs_view(out@);
    let ghost sv = pairs_view(src@);
    let mut i: usize = 0;
    while i < src.len()
        invariant
            0 <= i <= src.len(),
            sv == pairs_view(src@),
            keep == (if by_override {
                not_overridden(pairs_view(keys@))
            } else {
                not_forbidden()
            }),
            pairs_view(out@) == base + sv.subrange(0, i as int).filter(keep),
        decreases src.len() - i,
    {
        let ghost prev = pairs_view(out@);
        proof {
            reveal(Seq::filter);
            assert(sv.subrange(0, i + 1).drop_last() =~= sv.subrange(0, i as int));
            assert(sv.subrange(0, i + 1).last() == sv[i as int]);
        }
        let skip = if by_override {
            contains_key(keys, &src[i].0)
        } else {
            is_forbidden(&src[i].0)
        };
        if !skip {
            push_entry(out, src[i].0.clone(), src[i].1.clone());
            proof {
                assert(base + sv.subrange(0, i + 1).filter(keep) =~= prev.push(sv[i as int]));
            }
        }
        i = i + 1;
    }
    proof {
        assert(sv.subrange(0, i as int) =~= sv);
    }
}

fn render(entries: &Vec<(String, String)>, raw: &Vec<String>) -> (r: String)
    ensures
        r@ == document(pairs_view(entries@), strings_view(raw@)),
{
    let ghost es = pairs_view(entries@);
    let ghost rs = strings_view(raw@);
    let mut out = "{\n".to_owned();
    let mut i: usize = 0;
    while i < entries.len()
        invariant
            0 <= i <= entries.len(),
            es == pairs_view(entries@),
            out@ == "{\n"@ + entry_lines(es.subrange(0, i as int)),
        decreases entries.len() - i,
    {
        let ghost prev = out@;
        out.append("  ");
        out.append(entries[i].0.as_str());
        out.append(" = ");
        out.append(entries[i].1.as_str());
        out.append(";\n");
        proof {
            assert(es.subrange(0, i + 1).drop_last() =~= es.subrange(0, i as int));
            assert(es.subrange(0, i + 1).last() == es[i as int]);
            assert(out@ =~= prev + entry_line(es[i as int]));
        }
        i = i + 1;
    }
    proof {
        assert(es.subrange(0, i as int) =~= es);
    }
    let mut j: usize = 0;
    while j < raw.len()
        invariant
            0 <= j <= raw.len(),
            es == pairs_view(entries@),
            rs == strings_view(raw@),
            out@ == "{\n"@ + entry_lines(es) + raw_lines(rs.subrange(0, j as int)),
        decreases raw.len() - j,
    {
        let ghost prev = out@;
        out.append(raw[j].as_str());
        out.append("\n");
        proof {
            assert(rs.subrange(0, j + 1).drop_last() =~= rs.subrange(0, j as int));
            assert(rs.subrange(0, j + 1).last() == rs[j as int]);
            assert(out@ =~= prev + rs[j as int] + "\n"@);
        }
        j = j + 1;
    }
    proof {
        assert(rs.subrange(0, j as int) =~= rs);
    }
    out.append("}\n");
    out
}

proof fn lemma_filter_none<A>(s: Seq<A>, q: spec_fn(A) -> bool)
    requires
        forall|i: int| 0 <= i < s.len() ==> !q(s[i]),
    ensures
        s.filter(q) =~= Seq::<A>::empty(),
    decreases s.len(),
{
    reveal(Seq::filter);
    if s.len() > 0 {
        lemma_filter_none(s.drop_last(), q);
    }
}

proof fn lemma_filter_equiv<A>(s: Seq<A>, p: spec_fn(A) -> bool, q: spec_fn(A) -> bool)
    requires
        forall|i: int| 0 <= i < s.len() ==> p(s[i]) == q(s[i]),
    ensures
        s.filter(p) == s.filter(q),
    decreases s.len(),
{
    reveal(Seq::filter);
    if s.len() > 0 {
        lemma_filter_equiv(s.drop_last(), p, q);
    }
}

proof fn lemma_filter_filter<A>(s: Seq<A>, p: spec_fn(A) -> bool, q: spec_fn(A) -> bool)
    ensures
        s.filter(p).filter(q) == s.filter(|x: A| p(x) && q(x)),
    decreases s.len(),
{
    reveal(Seq::filter);
    if s.len() > 0 {
        lemma_filter_filter(s.drop_last(), p, q);
        let sub = s.drop_last().filter(p);
        if p(s.last()) {
            assert(sub.push(s.last()).drop_last() =~= sub);
        }
    }
}

/// The entries of `t`'s property list with key `k`, split by where they
/// come from.
proof fn lemma_entries_with_key(t: TrampolineView, k: Seq<char>)
    ensures
        info_entries(t).filter(key_is(k)) == system_entries(t).filter(key_is(k)) + hidpi_entries(
            t.hidpi,
        ).filter(key_is(k)) + t.keys.filter(|e: Entry| not_forbidden()(e) && key_is(k)(e))
            + default_table().filter(|e: Entry| not_overridden(t.keys)(e) && key_is(k)(e)),
{
    let a = system_entries(t);
    let b = hidpi_entries(t.hidpi);
    let c = t.keys.filter(not_forbidden());
    let d = default_table().filter(not_overridden(t.keys));
    Seq::filter_distributes_over_add(a + b + c, d, key_is(k));
    Seq::filter_distributes_over_add(a + b, c, key_is(k));
    Seq::filter_distributes_over_add(a, b, key_is(k));
    lemma_filter_filter(t.keys, not_forbidden(), key_is(k));
    lemma_filter_filter(default_table(), not_overridden(t.keys), key_is(k));
}

proof fn lemma_literal_keys_distinct()
    ensures
        "CFBundleName"@ != "CFBundleDisplayName"@,
        "CFBundleName"@ != "CFBundleIdentifier"@,
        "CFBundleName"@ != "CFBundleExecutable"@,
        "CFBundleName"@ != "CFBundleIconFile"@,
        "CFBundleName"@ != "CFBundleVersion"@,
        "CFBundleDisplayName"@ != "CFBundleIdentifier"@,
        "CFBundleDisplayName"@ != "CFBundleExecutable"@,
        "CFBundleDisplayName"@ != "CFBundleIconFile"@,
        "CFBundleDisplayName"@ != "CFBundleVersion"@,
        "CFBundleIdentifier"@ != "CFBundleExecutable"@,
        "CFBundleIdentifier"@ != "CFBundleIconFile"@,
        "CFBundleIdentifier"@ != "CFBundleVersion"@,
        "CFBundleExecutable"@ != "CFBundleIconFile"@,
        "CFBundleExecutable"@ != "CFBundleVersion"@,
        "CFBundleIconFile"@ != "CFBundleVersion"@,
        !is_forbidden_key("NSPrincipalClass"@),
        !is_forbidden_key("NSHighResolutionCapable"@),
        !is_forbidden_key("CFBundleInfoDictionaryVersion"@),
        !is_forbidden_key("CFBundlePackageType"@),
        !is_forbidden_key("CFBundleSignature"@),
        !is_forbidden_key("LSMinimumSystemVersion"@),
{
    reveal_strlit("CFBundleName");
    reveal_strlit("CFBundleDisplayName");
    reveal_strlit("CFBundleIdentifier");
    reveal_strlit("CFBundleExecutable");
    reveal_strlit("CFBundleIconFile");
    reveal_strlit("CFBundleVersion");
    reveal_strlit("NSPrincipalClass");
    reveal_strlit("NSHighResolutionCapable");
    reveal_strlit("CFBundleInfoDictionaryVersion");
    reveal_strlit("CFBundlePackageType");
    reveal_strlit("CFBundleSignature");
    reveal_strlit("LSMinimumSystemVersion");
    assert("CFBundleName"@.len() == 12);
    assert("CFBundleDisplayName"@.len() == 19);
    assert("CFBundleIdentifier"@.len() == 18);
    assert("CFBundleExecutable"@.len() == 18);
    assert("CFBundleIconFile"@.len() == 16);
    assert("CFBundleVersion"@.len() == 15);
    assert("NSPrincipalClass"@.len() == 16);
    assert("NSHighResolutionCapable"@.len() == 23);
    assert("CFBundleInfoDictionaryVersion"@.len() == 29);
    assert("CFBundlePackageType"@.len() == 19);
    assert("CFBundleSignature"@.len() == 17);
    assert("LSMinimumSystemVersion"@.len() == 22);
    assert("CFBundleIdentifier"@[8] != "CFBundleExecutable"@[8]);
    assert("CFBundleIconFile"@[0] != "NSPrincipalClass"@[0]);
    assert("CFBundleDisplayName"@[8] != "CFBundlePackageType"@[8]);
}

proof fn lemma_filter_single<A>(s: Seq<A>, q: spec_fn(A) -> bool, m: int)
    requires
        0 <= m < s.len(),
        q(s[m]),
        forall|i: int| 0 <= i < s.len() && i != m ==> !q(s[i]),
    ensures
        s.filter(q) == seq![s[m]],
    decreases s.len(),
{
    reveal(Seq::filter);
    if m == s.len() - 1 {
        lemma_filter_none(s.drop_last(), q);
        assert(s.filter(q) =~= seq![s[m]]);
    } else {
        lemma_filter_single(s.drop_last(), q, m);
    }
}

/// Where key `k` stands among the computed entries.
spec fn system_index(k: Seq<char>) -> int {
    if k == "CFBundleName"@ {
        0
    } else if k == "CFBundleDisplayName"@ {
        1
    } else if k == "CFBundleIdentifier"@ {
        2
    } else if k == "CFBundleExecutable"@ {
        3
    } else if k == "CFBundleIconFile"@ {
        4
    } else {
        5
    }
}

/// Keys that callers cannot set are written once each, with the value that
/// the description gives them, whatever entries the caller supplied.
pub proof fn lemma_forbidden_keys_written_once(t: TrampolineView, k: Seq<char>)
    requires
        is_forbidden_key(k),
    ensures
        info_entries(t).filter(key_is(k)) == seq![(k, system_value(t, k))],
{
    lemma_literal_keys_distinct();
    lemma_entries_with_key(t, k);
    let m = system_index(k);
    assert(system_entries(t)[m] == (k, system_value(t, k)));
    assert forall|i: int| 0 <= i < system_entries(t).len() && i != m implies !key_is(k)(
        system_entries(t)[i],
    ) by {}
    lemma_filter_single(system_entries(t), key_is(k), m);
    lemma_filter_none(hidpi_entries(t.hidpi), key_is(k));
    lemma_filter_none(t.keys, |e: Entry| not_forbidden()(e) && key_is(k)(e));
    lemma_filter_none(default_table(), |e: Entry| not_overridden(t.keys)(e) && key_is(k)(e));
    assert(info_entries(t).filter(key_is(k)) =~= seq![(k, system_value(t, k))]);
}

/// A key that the caller may set, and set exactly once, is written once,
/// with the caller's value: its default entry, if any, is left out. The key
/// must not be one of the two high-resolution keys while that pair is on.
pub proof fn lemma_override_written_once(t: TrampolineView, k: Seq<char>)
    requires
        !is_forbidden_key(k),
        t.keys.filter(key_is(k)).len() == 1,
        t.hidpi ==> k != "NSPrincipalClass"@ && k != "NSHighResolutionCapable"@,
    ensures
        info_entries(t).filter(key_is(k)) == t.keys.filter(key_is(k)),
        info_entries(t).filter(key_is(k)).len() == 1,
        forall|i: int|
            0 <= i < default_table().filter(not_overridden(t.keys)).len() ==> (
            #[trigger] default_table().filter(not_overridden(t.keys))[i]).0 != k,
{
    lemma_literal_keys_distinct();
    lemma_entries_with_key(t, k);
    lemma_filter_none(system_entries(t), key_is(k));
    lemma_filter_none(hidpi_entries(t.hidpi), key_is(k));
    lemma_filter_equiv(t.keys, |e: Entry| not_forbidden()(e) && key_is(k)(e), key_is(k));
    let f = t.keys.filter(key_is(k));
    t.keys.lemma_filter_pred(key_is(k), 0);
    t.keys.lemma_filter_contains_rev(key_is(k), f[0]);
    let j = choose|j: int| 0 <= j < t.keys.len() && t.keys[j] == f[0];
    assert(has_key(t.keys, k)) by {
        assert(t.keys[j].0 == k);
    }
    lemma_filter_none(default_table(), |e: Entry| not_overridden(t.keys)(e) && key_is(k)(e));
    assert(info_entries(t).filter(key_is(k)) =~= f);
    let d = default_table().filter(not_overridden(t.keys));
    assert forall|i: int| 0 <= i < d.len() implies (#[trigger] d[i]).0 != k by {
        default_table().lemma_filter_pred(not_overridden(t.keys), i);
    }
}

impl Trampoline {
    /// The `key = value;` entries of this bundle's property list, in the
    /// order they are written.
    pub fn plist_entries(&self) -> (r: Vec<(String, String)>)
        ensures
            pairs_view(r@) == info_entries(self@),
    {
        let ghost t = self@;
        let mut out: Vec<(String, String)> = Vec::new();
        push_entry(&mut out, "CFBundleName".to_owned(), quote(self.name_ref()));
        push_entry(&mut out, "CFBundleDisplayName".to_owned(), quote(self.name_ref()));
        push_entry(&mut out, "CFBundleIdentifier".to_owned(), quote(self.ident_ref()));
        push_entry(&mut out, "CFBundleExecutable".to_owned(), quote(self.exe_ref()));
        push_entry(&mut out, "CFBundleIconFile".to_owned(), quote(self.icon_ref()));
        push_entry(&mut out, "CFBundleVersion".to_owned(), quote(self.version_ref()));
        proof {
            assert(pairs_view(out@) =~= system_entries(t));
        }
        if self.hidpi_flag() {
            push_entry(&mut out, "NSPrincipalClass".to_owned(), "\"NSApplication\"".to_owned());
            push_entry(&mut out, "NSHighResolutionCapable".to_owned(), "True".to_owned());
        }
        proof {
            assert(pairs_view(out@) =~= system_entries(t) + hidpi_entries(t.hidpi));
        }
        let keys = self.keys_ref();
        push_filtered(&mut out, keys, keys, false);
        let defaults = default_plist();
        push_filtered(&mut out, &defaults, keys, true);
        out
    }

    /// The text of this bundle's `Info.plist`, in the old-style property-list
    /// format: an opening brace, one `key = value;` line per entry, each raw
    /// fragment on its own line, and a closing brace.
    pub fn info_plist(&self) -> (r: String)
        ensures
            r@ == info_text(self@),
    {
        let entries = self.plist_entries();
        render(&entries, self.raw_ref())
    }
}

} // verus!
