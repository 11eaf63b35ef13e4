//! Deterministic rendering of the accepted package set into the lock text:
//! optional header, marker-applicability comment and preamble, the pinned
//! body, and the excluded-packages footer.

use vstd::prelude::*;
use vstd::string::StringExecFns;
use crate::indexes::{Index, IndexLocations};
use crate::options::{AnnotationKind, BuildRestrictions, PackageChoice};
use crate::text::{
    clone_string, contains_string, join_strings, join_with, lines_text, write_lines,
};

verus! {

/// One accepted package: its pinned version and the optional annotations the
/// caller may ask to see.
pub struct ResolvedEntry {
    pub name: String,
    pub version: String,
    pub extras: Vec<String>,
    pub marker: Option<String>,
    pub hashes: Vec<String>,
    pub dependents: Vec<String>,
    pub index_url: Option<String>,
}

/// The immutable graph of accepted package choices.
pub struct ResolvedGraph {
    pub entries: Vec<ResolvedEntry>,
}

/// The graph pins a package of this name.
pub open spec fn graph_contains(entries: Seq<ResolvedEntry>, name: Seq<char>) -> bool {
    exists|i: int| 0 <= i < entries.len() && entries[i].name@ == name
}

impl ResolvedGraph {
    /// Decide whether the graph pins a package of this name.
    pub fn contains_package(&self, name: &str) -> (r: bool)
        ensures
            r == graph_contains(self.entries@, name@),
    {
        let mut i: usize = 0;
        while i < self.entries.len()
            invariant
                i <= self.entries.len(),
                forall|j: int| 0 <= j < i ==> self.entries@[j].name@ != name@,
            decreases self.entries.len() - i,
        {
            if crate::text::str_eq(self.entries[i].name.as_str(), name) {
                proof {
                    assert(self.entries@[i as int].name@ == name@);
                }
                return true;
            }
            i = i + 1;
        }
        false
    }
}

/// The caller's rendering toggles. `include_markers` is the effective
/// setting: universal resolutions always render markers.
pub struct RenderOptions {
    pub include_header: bool,
    pub include_marker_expression: bool,
    pub include_index_url: bool,
    pub include_find_links: bool,
    pub include_build_options: bool,
    pub include_extras: bool,
    pub include_markers: bool,
    pub include_annotations: bool,
    pub include_index_annotation: bool,
    pub annotation_style: AnnotationKind,
    pub generate_hashes: bool,
}

/// Each item with a fixed prefix put before it.
pub open spec fn prefix_all(pre: Seq<char>, items: Seq<Seq<char>>) -> Seq<Seq<char>> {
    items.map_values(|u: Seq<char>| pre + u)
}

/// Put a fixed prefix before every item.
fn prefix_lines(pre: &str, items: &Vec<String>) -> (r: Vec<String>)
    ensures
        r.deep_view() == prefix_all(pre@, items.deep_view()),
{
    let mut r: Vec<String> = Vec::new();
    let mut i: usize = 0;
    while i < items.len()
        invariant
            i <= items.len(),
            items.deep_view().len() == items.len(),
            r@.len() == i,
            forall|k: int| 0 <= k < i ==> r@[k]@ == pre@ + items.deep_view()[k],
        decreases items.len() - i,
    {
        let mut line = String::from_str(pre);
        line.append(items[i].as_str());
        r.push(line);
        i = i + 1;
    }
    proof {
        assert forall|k: int| 0 <= k < r@.len() implies r.deep_view()[k] == prefix_all(
            pre@,
            items.deep_view(),
        )[k] by {
            assert(r@[k]@ == pre@ + items.deep_view()[k]);
        }
        assert(r.deep_view() =~= prefix_all(pre@, items.deep_view()));
    }
    r
}

/// Move lines onto the end of a line list.
fn append_lines(dst: &mut Vec<String>, src: Vec<String>)
    ensures
        final(dst).deep_view() == old(dst).deep_view() + src.deep_view(),
{
    let ghost pv = dst@;
    let ghost sv = src@;
    let mut s = src;
    dst.append(&mut s);
    proof {
        assert forall|i: int| 0 <= i < dst@.len() implies dst.deep_view()[i] == (old(
            dst,
        ).deep_view() + Seq::new(sv.len(), |k: int| sv[k]@))[i] by {
            if i < pv.len() {
                assert(dst@[i] == pv[i]);
            } else {
                assert(dst@[i] == sv[i - pv.len()]);
            }
        }
        assert(dst.deep_view() =~= old(dst).deep_view() + src.deep_view());
    }
}

/// Put one line at the end of a line list.
fn push_line(dst: &mut Vec<String>, line: String)
    ensures
        final(dst).deep_view() == old(dst).deep_view() + seq![line@],
{
    let ghost lv = line@;
    dst.push(line);
    proof {
        assert(dst.deep_view() =~= old(dst).deep_view() + seq![lv]);
    }
}

/// The header comment block: the provenance comment and the reproducible
/// command line.
pub open spec fn header_lines(include_header: bool, cmd: Seq<char>) -> Seq<Seq<char>> {
    if include_header {
        seq!["# This file was autogenerated by uv via the following command:"@, "#    "@ + cmd]
    } else {
        Seq::empty()
    }
}

/// The marker-applicability comment: only for a specific (non-universal)
/// resolution, and only when the intersection of the graph's markers with
/// the concrete environment is not universally true.
pub open spec fn marker_expr_lines(
    enabled: bool,
    specific: bool,
    relevant: Option<Seq<char>>,
) -> Seq<Seq<char>> {
    if enabled && specific {
        match relevant {
            Option::Some(m) => seq!["# Pinned dependencies known to be valid for:"@, "#    "@ + m],
            Option::None => Seq::empty(),
        }
    } else {
        Seq::empty()
    }
}

/// The location of the first entry marked default, scanning left to right.
pub open spec fn first_default_url(s: Seq<Index>) -> Option<Seq<char>>
    decreases s.len(),
{
    if s.len() == 0 {
        Option::None
    } else if s[0].is_default {
        Option::Some(s[0].url@)
    } else {
        first_default_url(s.skip(1))
    }
}

/// The locations of the supplementary (non-default) entries, in order.
pub open spec fn implicit_urls(s: Seq<Index>) -> Seq<Seq<char>>
    decreases s.len(),
{
    if s.len() == 0 {
        Seq::empty()
    } else {
        implicit_urls(s.drop_last()) + (if s.last().is_default {
            Seq::empty()
        } else {
            seq![s.last().url@]
        })
    }
}

/// Keep each value at its first occurrence and drop later repeats.
pub open spec fn dedup_first(s: Seq<Seq<char>>) -> Seq<Seq<char>>
    decreases s.len(),
{
    if s.len() == 0 {
        Seq::empty()
    } else {
        dedup_first(s.drop_last()) + (if s.drop_last().contains(s.last()) {
            Seq::empty()
        } else {
            seq![s.last()]
        })
    }
}

/// The index lines of the preamble: the default index, then the
/// supplementary indexes de-duplicated by location, first seen first.
pub open spec fn index_lines(enabled: bool, indexes: Seq<Index>) -> Seq<Seq<char>> {
    if !enabled {
        Seq::empty()
    } else {
        (match first_default_url(indexes) {
            Option::Some(u) => seq!["--index-url "@ + u],
            Option::None => Seq::empty(),
        }) + prefix_all("--extra-index-url "@, dedup_first(implicit_urls(indexes)))
    }
}

/// The locations of the flat link sources, in order.
pub open spec fn flat_urls(s: Seq<Index>) -> Seq<Seq<char>> {
    s.map_values(|e: Index| e.url@)
}

/// The find-links lines of the preamble.
pub open spec fn flat_lines(enabled: bool, flat: Seq<Index>) -> Seq<Seq<char>> {
    if !enabled {
        Seq::empty()
    } else {
        prefix_all("--find-links "@, flat_urls(flat))
    }
}

/// The lines of one build restriction: nothing, ":all:", or one line per
/// listed package.
pub open spec fn choice_lines(flag: Seq<char>, c: PackageChoice) -> Seq<Seq<char>> {
    match c {
        PackageChoice::NoPackages => Seq::empty(),
        PackageChoice::AllPackages => seq![flag + ":all:"@],
        PackageChoice::ListedPackages(v) => prefix_all(flag, v.deep_view()),
    }
}

/// The build-option lines of the preamble.
pub open spec fn build_option_lines(enabled: bool, r: BuildRestrictions) -> Seq<Seq<char>> {
    if !enabled {
        Seq::empty()
    } else {
        choice_lines("--no-binary "@, r.no_binary) + choice_lines("--only-binary "@, r.no_build)
    }
}

/// Every preamble line: indexes, find-links, then build options.
pub open spec fn preamble_lines(
    o: RenderOptions,
    indexes: Seq<Index>,
    flat: Seq<Index>,
    restr: BuildRestrictions,
) -> Seq<Seq<char>> {
    index_lines(o.include_index_url, indexes) + flat_lines(o.include_find_links, flat)
        + build_option_lines(o.include_build_options, restr)
}

/// Exactly one blank line stands between the preamble and the body when the
/// preamble emitted anything, and none otherwise.
pub open spec fn separator_lines(
    o: RenderOptions,
    indexes: Seq<Index>,
    flat: Seq<Index>,
    restr: BuildRestrictions,
) -> Seq<Seq<char>> {
    if preamble_lines(o, indexes, flat, restr).len() > 0 {
        seq![Seq::<char>::empty()]
    } else {
        Seq::empty()
    }
}

/// The pin line of one entry: name, bracketed extras when asked and present,
/// the pinned version, and the applicability marker when asked and present.
pub open spec fn entry_pin_line(e: ResolvedEntry, o: RenderOptions) -> Seq<char> {
    e.name@ + (if o.include_extras && e.extras@.len() > 0 {
        "["@ + join_with(e.extras.deep_view(), ","@) + "]"@
    } else {
        Seq::empty()
    }) + "=="@ + e.version@ + (if o.include_markers {
        match e.marker {
            Option::Some(m) => " ; "@ + m@,
            Option::None => Seq::empty(),
        }
    } else {
        Seq::empty()
    })
}

/// The hash lines of one entry.
pub open spec fn hash_lines(e: ResolvedEntry, o: RenderOptions) -> Seq<Seq<char>> {
    if o.generate_hashes {
        prefix_all("    --hash="@, e.hashes.deep_view())
    } else {
        Seq::empty()
    }
}

/// The annotation comments naming what pulled the entry in: one joined line,
/// or a split list, by the chosen style.
pub open spec fn via_lines(e: ResolvedEntry, o: RenderOptions) -> Seq<Seq<char>> {
    if o.include_annotations && e.dependents@.len() > 0 {
        match o.annotation_style {
            AnnotationKind::LineAnnotations => seq![
                "    # via "@ + join_with(e.dependents.deep_view(), ", "@),
            ],
            AnnotationKind::SplitAnnotations => seq!["    # via"@] + prefix_all(
                "    #   "@,
                e.dependents.deep_view(),
            ),
        }
    } else {
        Seq::empty()
    }
}

/// The index-provenance comment of one entry.
pub open spec fn from_lines(e: ResolvedEntry, o: RenderOptions) -> Seq<Seq<char>> {
    if o.include_index_annotation {
        match e.index_url {
            Option::Some(u) => seq!["    # from "@ + u@],
            Option::None => Seq::empty(),
        }
    } else {
        Seq::empty()
    }
}

/// Every line of one rendered entry.
pub open spec fn entry_lines(e: ResolvedEntry, o: RenderOptions) -> Seq<Seq<char>> {
    seq![entry_pin_line(e, o)] + hash_lines(e, o) + via_lines(e, o) + from_lines(e, o)
}

/// The body: each entry in graph order, skipping the names excluded from
/// the output.
pub open spec fn body_lines(
    entries: Seq<ResolvedEntry>,
    no_emit: Seq<Seq<char>>,
    o: RenderOptions,
) -> Seq<Seq<char>>
    decreases entries.len(),
{
    if entries.len() == 0 {
        Seq::empty()
    } else {
        body_lines(entries.drop_last(), no_emit, o) + (if no_emit.contains(entries.last().name@) {
            Seq::empty()
        } else {
            entry_lines(entries.last(), o)
        })
    }
}

/// The names excluded from the body that the graph actually pinned, in the
/// order they were passed; an absent name is silently no entry.
pub open spec fn excluded_present(
    no_emit: Seq<Seq<char>>,
    entries: Seq<ResolvedEntry>,
) -> Seq<Seq<char>>
    decreases no_emit.len(),
{
    if no_emit.len() == 0 {
        Seq::empty()
    } else {
        excluded_present(no_emit.drop_last(), entries) + (if graph_contains(
            entries,
            no_emit.last(),
        ) {
            seq![no_emit.last()]
        } else {
            Seq::empty()
        })
    }
}

/// The footer's per-name comment lines.
pub open spec fn footer_name_lines(
    no_emit: Seq<Seq<char>>,
    entries: Seq<ResolvedEntry>,
) -> Seq<Seq<char>> {
    prefix_all("# "@, excluded_present(no_emit, entries))
}

/// The excluded-packages footer: nothing when no excluded name was pinned,
/// else a blank line, an introduction, and one comment line per name.
pub open spec fn footer_lines(
    no_emit: Seq<Seq<char>>,
    entries: Seq<ResolvedEntry>,
) -> Seq<Seq<char>> {
    if excluded_present(no_emit, entries).len() == 0 {
        Seq::empty()
    } else {
        seq![Seq::<char>::empty(), "# The following packages were excluded from the output:"@]
            + footer_name_lines(no_emit, entries)
    }
}

/// Every line of the rendered output, in order.
pub open spec fn render_lines_spec(
    entries: Seq<ResolvedEntry>,
    no_emit: Seq<Seq<char>>,
    o: RenderOptions,
    indexes: Seq<Index>,
    flat: Seq<Index>,
    restr: BuildRestrictions,
    cmd: Seq<char>,
    relevant: Option<Seq<char>>,
    specific: bool,
) -> Seq<Seq<char>> {
    header_lines(o.include_header, cmd) + marker_expr_lines(
        o.include_marker_expression,
        specific,
        relevant,
    ) + preamble_lines(o, indexes, flat, restr) + separator_lines(o, indexes, flat, restr)
        + body_lines(entries, no_emit, o) + footer_lines(no_emit, entries)
}

/// The full rendered text: each line terminated by a newline.
pub open spec fn rendered_text_spec(
    entries: Seq<ResolvedEntry>,
    no_emit: Seq<Seq<char>>,
    o: RenderOptions,
    indexes: Seq<Index>,
    flat: Seq<Index>,
    restr: BuildRestrictions,
    cmd: Seq<char>,
    relevant: Option<Seq<char>>,
    specific: bool,
) -> Seq<char> {
    lines_text(render_lines_spec(entries, no_emit, o, indexes, flat, restr, cmd, relevant, specific))
}

/// Render the preamble's index lines.
fn render_index_lines(enabled: bool, locations: &IndexLocations) -> (r: Vec<String>)
    ensures
        r.deep_view() == index_lines(enabled, locations.indexes@),
{
    let mut r: Vec<String> = Vec::new();
    if !enabled {
        proof {
            assert(r.deep_view() =~= index_lines(enabled, locations.indexes@));
        }
        return r;
    }
    let s = &locations.indexes;
    // the default index line
    let mut i: usize = 0;
    proof {
        assert(s@.skip(0) =~= s@);
    }
    let mut found = false;
    while i < s.len() && !found
        invariant
            i <= s.len(),
            !found ==> first_default_url(s@) == first_default_url(s@.skip(i as int)),
            found ==> i > 0 && first_default_url(s@) == Option::Some(s@[i as int - 1].url@),
        decreases s.len() - i + (if found {
            0int
        } else {
            1int
        }),
    {
        proof {
            assert(s@.skip(i as int)[0] == s@[i as int]);
            assert(s@.skip(i as int).skip(1) =~= s@.skip(i as int + 1));
        }
        if s[i].is_default {
            found = true;
        }
        i = i + 1;
    }
    if found {
        let mut line = String::from_str("--index-url ");
        line.append(s[i - 1].url.as_str());
        push_line(&mut r, line);
    } else {
        proof {
            assert(s@.skip(s.len() as int).len() == 0);
        }
    }
    let ghost default_part = match first_default_url(s@) {
        Option::Some(u) => seq!["--index-url "@ + u],
        Option::None => Seq::<Seq<char>>::empty(),
    };
    proof {
        assert(r.deep_view() =~= default_part);
    }
    // the supplementary index lines, de-duplicated by location
    let mut raw: Vec<String> = Vec::new();
    let mut j: usize = 0;
    proof {
        assert(s@.take(0) =~= Seq::<Index>::empty());
        assert(raw.deep_view() =~= implicit_urls(s@.take(0)));
    }
    while j < s.len()
        invariant
            j <= s.len(),
            raw.deep_view() == implicit_urls(s@.take(j as int)),
        decreases s.len() - j,
    {
        let ghost before = raw.deep_view();
        if !s[j].is_default {
            raw.push(clone_string(&s[j].url));
        }
        proof {
            assert(s@.take(j as int + 1).drop_last() =~= s@.take(j as int));
            assert(s@.take(j as int + 1).last() == s@[j as int]);
            if s@[j as int].is_default {
                assert(raw.deep_view() =~= before + Seq::<Seq<char>>::empty());
            } else {
                assert(raw.deep_view() =~= before + seq![s@[j as int].url@]);
            }
        }
        j = j + 1;
    }
    proof {
        assert(s@.take(s.len() as int) =~= s@);
    }
    let mut seen: Vec<String> = Vec::new();
    let mut kept: Vec<String> = Vec::new();
    let mut k: usize = 0;
    proof {
        assert(raw.deep_view().take(0) =~= Seq::<Seq<char>>::empty());
        assert(kept.deep_view() =~= dedup_first(raw.deep_view().take(0)));
        assert(seen.deep_view() =~= raw.deep_view().take(0));
    }
    while k < raw.len()
        invariant
            k <= raw.len(),
            raw.deep_view().len() == raw.len(),
            seen.deep_view() == raw.deep_view().take(k as int),
            kept.deep_view() == dedup_first(raw.deep_view().take(k as int)),
        decreases raw.len() - k,
    {
        let ghost before_kept = kept.deep_view();
        let ghost before_seen = seen.deep_view();
        if !contains_string(&seen, raw[k].as_str()) {
            kept.push(clone_string(&raw[k]));
        }
        seen.push(clone_string(&raw[k]));
        proof {
            let rdv = raw.deep_view();
            assert(rdv.take(k as int + 1).drop_last() =~= rdv.take(k as int));
            assert(rdv.take(k as int + 1).last() == rdv[k as int]);
            assert(seen.deep_view() =~= rdv.take(k as int + 1));
            if rdv.take(k as int).contains(rdv[k as int]) {
                assert(kept.deep_view() =~= before_kept + Seq::<Seq<char>>::empty());
            } else {
                assert(kept.deep_view() =~= before_kept + seq![rdv[k as int]]);
            }
        }
        k = k + 1;
    }
    proof {
        assert(raw.deep_view().take(raw.len() as int) =~= raw.deep_view());
    }
    let extra = prefix_lines("--extra-index-url ", &kept);
    append_lines(&mut r, extra);
    proof {
        assert(r.deep_view() =~= index_lines(enabled, locations.indexes@));
    }
    r
}

/// Render one entry's lines.
fn render_entry(e: &ResolvedEntry, o: &RenderOptions) -> (r: Vec<String>)
    ensures
        r.deep_view() == entry_lines(*e, *o),
{
    let mut line = clone_string(&e.name);
    if o.include_extras && e.extras.len() > 0 {
        line.append("[");
        let joined = join_strings(&e.extras, ",");
        line.append(joined.as_str());
        line.append("]");
    }
    line.append("==");
    line.append(e.version.as_str());
    if o.include_markers {
        match &e.marker {
            Option::Some(m) => {
                line.append(" ; ");
                line.append(m.as_str());
            },
            Option::None => {},
        }
    }
    proof {
        assert(line@ =~= entry_pin_line(*e, *o));
    }
    let mut r: Vec<String> = Vec::new();
    push_line(&mut r, line);
    if o.generate_hashes {
        let h = prefix_lines("    --hash=", &e.hashes);
        append_lines(&mut r, h);
    }
    proof {
        assert(r.deep_view() =~= seq![entry_pin_line(*e, *o)] + hash_lines(*e, *o));
    }
    if o.include_annotations && e.dependents.len() > 0 {
        match o.annotation_style {
            AnnotationKind::LineAnnotations => {
                let mut via = String::from_str("    # via ");
                let joined = join_strings(&e.dependents, ", ");
                via.append(joined.as_str());
                push_line(&mut r, via);
            },
            AnnotationKind::SplitAnnotations => {
                push_line(&mut r, String::from_str("    # via"));
                let d = prefix_lines("    #   ", &e.dependents);
                append_lines(&mut r, d);
            },
        }
    }
    proof {
        assert(r.deep_view() =~= seq![entry_pin_line(*e, *o)] + hash_lines(*e, *o) + via_lines(
            *e,
            *o,
        ));
    }
    if o.include_index_annotation {
        match &e.index_url {
            Option::Some(u) => {
                let mut from = String::from_str("    # from ");
                from.append(u.as_str());
                push_line(&mut r, from);
            },
            Option::None => {},
        }
    }
    proof {
        assert(r.deep_view() =~= entry_lines(*e, *o));
    }
    r
}

/// Render every line of the output, in order.
#[verifier::rlimit(100)]
#[verifier::spinoff_prover]
pub fn render_lines(
    graph: &ResolvedGraph,
    no_emit: &Vec<String>,
    o: &RenderOptions,
    locations: &IndexLocations,
    restr: &BuildRestrictions,
    cmd: &String,
    relevant: &Option<String>,
    specific: bool,
) -> (r: Vec<String>)
    ensures
        r.deep_view() == render_lines_spec(
            graph.entries@,
            no_emit.deep_view(),
            *o,
            locations.indexes@,
            locations.flat@,
            *restr,
            cmd@,
            relevant.deep_view(),
            specific,
        ),
{
    let mut r: Vec<String> = Vec::new();
    // header
    if o.include_header {
        push_line(
            &mut r,
            String::from_str("# This file was autogenerated by uv via the following command:"),
        );
        let mut cl = String::from_str("#    ");
        cl.append(cmd.as_str());
        push_line(&mut r, cl);
    }
    proof {
        assert(r.deep_view() =~= header_lines(o.include_header, cmd@));
    }
    // marker applicability
    if o.include_marker_expression && specific {
        match relevant {
            Option::Some(m) => {
                push_line(&mut r, String::from_str("# Pinned dependencies known to be valid for:"));
                let mut ml = String::from_str("#    ");
                ml.append(m.as_str());
                push_line(&mut r, ml);
            },
            Option::None => {},
        }
    }
    proof {
        assert(r.deep_view() =~= header_lines(o.include_header, cmd@) + marker_expr_lines(
            o.include_marker_expression,
            specific,
            relevant.deep_view(),
        ));
    }
    // preamble
    let idx = render_index_lines(o.include_index_url, locations);
    append_lines(&mut r, idx);
    if o.include_find_links {
        let mut urls: Vec<String> = Vec::new();
        let mut i: usize = 0;
        while i < locations.flat.len()
            invariant
                i <= locations.flat.len(),
                urls@.len() == i,
                forall|k: int| 0 <= k < i ==> urls@[k]@ == locations.flat@[k].url@,
            decreases locations.flat.len() - i,
        {
            urls.push(clone_string(&locations.flat[i].url));
            i = i + 1;
        }
        proof {
            assert forall|k: int| 0 <= k < urls@.len() implies urls.deep_view()[k] == flat_urls(
                locations.flat@,
            )[k] by {
                assert(urls@[k]@ == locations.flat@[k].url@);
            }
            assert(urls.deep_view() =~= flat_urls(locations.flat@));
        }
        let fl = prefix_lines("--find-links ", &urls);
        append_lines(&mut r, fl);
    }
    if o.include_build_options {
        let nb = render_choice_lines("--no-binary ", &restr.no_binary);
        append_lines(&mut r, nb);
        let ob = render_choice_lines("--only-binary ", &restr.no_build);
        append_lines(&mut r, ob);
    }
    let ghost lead = header_lines(o.include_header, cmd@) + marker_expr_lines(
        o.include_marker_expression,
        specific,
        relevant.deep_view(),
    ) + preamble_lines(*o, locations.indexes@, locations.flat@, *restr);
    proof {
        assert(r.deep_view() =~= lead);
    }
    // separator
    if preamble_nonempty(o, locations, restr) {
        push_line(&mut r, String::new());
    }
    proof {
        assert(r.deep_view() =~= lead + separator_lines(*o, locations.indexes@, locations.flat@, *restr));
    }
    // body
    let mut b: usize = 0;
    let ghost lead2 = lead + separator_lines(*o, locations.indexes@, locations.flat@, *restr);
    proof {
        assert(graph.entries@.take(0) =~= Seq::<ResolvedEntry>::empty());
        assert(r.deep_view() =~= lead2 + body_lines(graph.entries@.take(0), no_emit.deep_view(), *o));
    }
    while b < graph.entries.len()
        invariant
            b <= graph.entries.len(),
            r.deep_view() == lead2 + body_lines(
                graph.entries@.take(b as int),
                no_emit.deep_view(),
                *o,
            ),
        decreases graph.entries.len() - b,
    {
        let ghost before = r.deep_view();
        if !contains_string(no_emit, graph.entries[b].name.as_str()) {
            let el = render_entry(&graph.entries[b], o);
            append_lines(&mut r, el);
        }
        proof {
            let g = graph.entries@;
            assert(g.take(b as int + 1).drop_last() =~= g.take(b as int));
            assert(g.take(b as int + 1).last() == g[b as int]);
            if no_emit.deep_view().contains(g[b as int].name@) {
                assert(r.deep_view() =~= before + Seq::<Seq<char>>::empty());
            } else {
                assert(r.deep_view() =~= before + entry_lines(g[b as int], *o));
            }
            assert(before + (if no_emit.deep_view().contains(g[b as int].name@) {
                Seq::<Seq<char>>::empty()
            } else {
                entry_lines(g[b as int], *o)
            }) =~= lead2 + body_lines(g.take(b as int + 1), no_emit.deep_view(), *o));
        }
        b = b + 1;
    }
    proof {
        assert(graph.entries@.take(graph.entries.len() as int) =~= graph.entries@);
    }
    // footer
    let mut excluded: Vec<String> = Vec::new();
    let mut x: usize = 0;
    proof {
        assert(no_emit.deep_view().take(0) =~= Seq::<Seq<char>>::empty());
        assert(excluded.deep_view() =~= excluded_present(no_emit.deep_view().take(0), graph.entries@));
    }
    while x < no_emit.len()
        invariant
            x <= no_emit.len(),
            no_emit.deep_view().len() == no_emit.len(),
            excluded.deep_view() == excluded_present(
                no_emit.deep_view().take(x as int),
                graph.entries@,
            ),
        decreases no_emit.len() - x,
    {
        let ghost before = excluded.deep_view();
        if graph.contains_package(no_emit[x].as_str()) {
            excluded.push(clone_string(&no_emit[x]));
        }
        proof {
            let nd = no_emit.deep_view();
            assert(nd.take(x as int + 1).drop_last() =~= nd.take(x as int));
            assert(nd.take(x as int + 1).last() == nd[x as int]);
            if graph_contains(graph.entries@, nd[x as int]) {
                assert(excluded.deep_view() =~= before + seq![nd[x as int]]);
            } else {
                assert(excluded.deep_view() =~= before + Seq::<Seq<char>>::empty());
            }
        }
        x = x + 1;
    }
    proof {
        assert(no_emit.deep_view().take(no_emit.len() as int) =~= no_emit.deep_view());
    }
    if excluded.len() > 0 {
        push_line(&mut r, String::new());
        push_line(
            &mut r,
            String::from_str("# The following packages were excluded from the output:"),
        );
        let nl = prefix_lines("# ", &excluded);
        append_lines(&mut r, nl);
    }
    proof {
        assert(r.deep_view() =~= render_lines_spec(
            graph.entries@,
            no_emit.deep_view(),
            *o,
            locations.indexes@,
            locations.flat@,
            *restr,
            cmd@,
            relevant.deep_view(),
            specific,
        ));
    }
    r
}

/// Decide whether the preamble will emit at least one line.
fn preamble_nonempty(o: &RenderOptions, locations: &IndexLocations, restr: &BuildRestrictions)
    -> (r: bool)
    ensures
        r == (preamble_lines(*o, locations.indexes@, locations.flat@, *restr).len() > 0),
{
    let idx = render_index_lines(o.include_index_url, locations);
    proof {
        assert(flat_urls(locations.flat@).len() == locations.flat@.len());
    }
    idx.len() > 0 || (o.include_find_links && locations.flat.len() > 0) || (
    o.include_build_options && (choice_count(&restr.no_binary) > 0 || choice_count(
        &restr.no_build,
    ) > 0))
}

/// The number of lines a build restriction emits.
fn choice_count(c: &PackageChoice) -> (r: usize)
    ensures
        forall|flag: Seq<char>| choice_lines(flag, *c).len() == r,
{
    match c {
        PackageChoice::NoPackages => 0,
        PackageChoice::AllPackages => 1,
        PackageChoice::ListedPackages(v) => v.len(),
    }
}

/// Render one build restriction's lines.
fn render_choice_lines(flag: &str, c: &PackageChoice) -> (r: Vec<String>)
    ensures
        r.deep_view() == choice_lines(flag@, *c),
{
    match c {
        PackageChoice::NoPackages => {
            let r: Vec<String> = Vec::new();
            proof {
                assert(r.deep_view() =~= choice_lines(flag@, *c));
            }
            r
        },
        PackageChoice::AllPackages => {
            let mut r: Vec<String> = Vec::new();
            let mut line = String::from_str(flag);
            line.append(":all:");
            push_line(&mut r, line);
            proof {
                assert(r.deep_view() =~= choice_lines(flag@, *c));
            }
            r
        },
        PackageChoice::ListedPackages(v) => prefix_lines(flag, v),
    }
}

/// Render the full output text: every line, each terminated by a newline.
/// Rendering is a pure function of the graph and the options; committing
/// the text to its destination is the caller's one side effect.
pub fn render_text(
    graph: &ResolvedGraph,
    no_emit: &Vec<String>,
    o: &RenderOptions,
    locations: &IndexLocations,
    restr: &BuildRestrictions,
    cmd: &String,
    relevant: &Option<String>,
    specific: bool,
) -> (r: String)
    ensures
        r@ == rendered_text_spec(
            graph.entries@,
            no_emit.deep_view(),
            *o,
            locations.indexes@,
            locations.flat@,
            *restr,
            cmd@,
            relevant.deep_view(),
            specific,
        ),
{
    let lines = render_lines(graph, no_emit, o, locations, restr, cmd, relevant, specific);
    write_lines(&lines)
}

/// How many members of a list equal the given value.
pub open spec fn count_occurrences(s: Seq<Seq<char>>, x: Seq<char>) -> nat
    decreases s.len(),
{
    if s.len() == 0 {
        0
    } else {
        count_occurrences(s.drop_last(), x) + (if s.last() == x {
            1nat
        } else {
            0nat
        })
    }
}

/// Occurrence counts add over concatenation.
pub proof fn lemma_count_concat(a: Seq<Seq<char>>, b: Seq<Seq<char>>, x: Seq<char>)
    ensures
        count_occurrences(a + b, x) == count_occurrences(a, x) + count_occurrences(b, x),
    decreases b.len(),
{
    if b.len() == 0 {
        assert(a + b =~= a);
    } else {
        lemma_count_concat(a, b.drop_last(), x);
        assert((a + b).drop_last() =~= a + b.drop_last());
        assert((a + b).last() == b.last());
    }
}

/// A common prefix cancels: equal prefixed values have equal remainders.
pub proof fn lemma_prefix_cancels(pre: Seq<char>, a: Seq<char>, b: Seq<char>)
    requires
        pre + a == pre + b,
    ensures
        a == b,
{
    assert((pre + a).len() == pre.len() + a.len());
    assert((pre + b).len() == pre.len() + b.len());
    assert(a.len() == b.len());
    assert forall|i: int| 0 <= i < a.len() implies a[i] == b[i] by {
        assert(0 <= pre.len() + i < (pre + a).len());
        assert((pre + a)[pre.len() + i] == a[i]);
        assert((pre + b)[pre.len() + i] == b[i]);
    }
    assert(a =~= b);
}

/// Prefixing every name keeps the occurrence count of each name.
pub proof fn lemma_count_prefixed(pre: Seq<char>, names: Seq<Seq<char>>, n: Seq<char>)
    ensures
        count_occurrences(prefix_all(pre, names), pre + n) == count_occurrences(names, n),
    decreases names.len(),
{
    if names.len() > 0 {
        lemma_count_prefixed(pre, names.drop_last(), n);
        assert(prefix_all(pre, names) =~= prefix_all(pre, names.drop_last()) + seq![
            pre + names.last(),
        ]);
        lemma_count_concat(prefix_all(pre, names.drop_last()), seq![pre + names.last()], pre + n);
        assert(seq![pre + names.last()].drop_last() =~= Seq::<Seq<char>>::empty());
        assert(count_occurrences(Seq::<Seq<char>>::empty(), pre + n) == 0);
        assert(seq![pre + names.last()].last() == pre + names.last());
        assert(count_occurrences(seq![pre + names.last()], pre + n) == (if pre + names.last() == pre
            + n {
            1nat
        } else {
            0nat
        }));
        if pre + names.last() == pre + n {
            lemma_prefix_cancels(pre, names.last(), n);
        }
    }
}

/// A name occurs in the excluded list as often as it was passed, when the
/// graph pins it, and never otherwise.
pub proof fn lemma_excluded_count(no_emit: Seq<Seq<char>>, entries: Seq<ResolvedEntry>, n: Seq<char>)
    ensures
        count_occurrences(excluded_present(no_emit, entries), n) == (if graph_contains(entries, n) {
            count_occurrences(no_emit, n)
        } else {
            0nat
        }),
    decreases no_emit.len(),
{
    if no_emit.len() > 0 {
        lemma_excluded_count(no_emit.drop_last(), entries, n);
        let tail: Seq<Seq<char>> = if graph_contains(entries, no_emit.last()) {
            seq![no_emit.last()]
        } else {
            Seq::empty()
        };
        lemma_count_concat(excluded_present(no_emit.drop_last(), entries), tail, n);
        if graph_contains(entries, no_emit.last()) {
            assert(seq![no_emit.last()].drop_last() =~= Seq::<Seq<char>>::empty());
            assert(count_occurrences(Seq::<Seq<char>>::empty(), n) == 0);
            assert(seq![no_emit.last()].last() == no_emit.last());
            assert(count_occurrences(tail, n) == (if no_emit.last() == n {
                1nat
            } else {
                0nat
            }));
        } else {
            assert(count_occurrences(tail, n) == 0);
        }
    }
}

/// Footer law: a name passed for exclusion but absent from the resolved
/// graph gets no footer line, and a pinned name passed once gets exactly one
/// comment line holding it. In general the footer names a pinned exclusion
/// as often as it was passed.
pub proof fn lemma_footer_exclusions(
    no_emit: Seq<Seq<char>>,
    entries: Seq<ResolvedEntry>,
    name: Seq<char>,
)
    ensures
        count_occurrences(footer_name_lines(no_emit, entries), "# "@ + name) == (if graph_contains(
            entries,
            name,
        ) {
            count_occurrences(no_emit, name)
        } else {
            0nat
        }),
        !graph_contains(entries, name) ==> count_occurrences(
            footer_name_lines(no_emit, entries),
            "# "@ + name,
        ) == 0,
        graph_contains(entries, name) && count_occurrences(no_emit, name) == 1
            ==> count_occurrences(footer_name_lines(no_emit, entries), "# "@ + name) == 1,
{
    lemma_count_prefixed("# "@, excluded_present(no_emit, entries), name);
    lemma_excluded_count(no_emit, entries, name);
}

/// Blank-line law: the rendered lines are the leading sections, then one
/// blank line exactly when the preamble emitted at least one line, then the
/// body and the footer; no blank line stands there otherwise.
pub proof fn lemma_preamble_blank_line(
    entries: Seq<ResolvedEntry>,
    no_emit: Seq<Seq<char>>,
    o: RenderOptions,
    indexes: Seq<Index>,
    flat: Seq<Index>,
    restr: BuildRestrictions,
    cmd: Seq<char>,
    relevant: Option<Seq<char>>,
    specific: bool,
)
    ensures
        render_lines_spec(entries, no_emit, o, indexes, flat, restr, cmd, relevant, specific)
            == header_lines(o.include_header, cmd) + marker_expr_lines(
            o.include_marker_expression,
            specific,
            relevant,
        ) + preamble_lines(o, indexes, flat, restr) + separator_lines(o, indexes, flat, restr)
            + body_lines(entries, no_emit, o) + footer_lines(no_emit, entries),
        preamble_lines(o, indexes, flat, restr).len() > 0 ==> separator_lines(
            o,
            indexes,
            flat,
            restr,
        ) == seq![Seq::<char>::empty()],
        preamble_lines(o, indexes, flat, restr).len() == 0 ==> separator_lines(
            o,
            indexes,
            flat,
            restr,
        ).len() == 0,
{
}

/// Determinism law: rendering is a pure function of the resolved graph and
/// the rendering inputs, so rendering the same graph with the same options
/// twice yields byte-identical text.
pub proof fn lemma_render_deterministic(
    entries: Seq<ResolvedEntry>,
    no_emit: Seq<Seq<char>>,
    o: RenderOptions,
    indexes: Seq<Index>,
    flat: Seq<Index>,
    restr: BuildRestrictions,
    cmd: Seq<char>,
    relevant: Option<Seq<char>>,
    specific: bool,
    other_entries: Seq<ResolvedEntry>,
    other_no_emit: Seq<Seq<char>>,
)
    requires
        other_entries == entries,
        other_no_emit == no_emit,
    ensures
        rendered_text_spec(other_entries, other_no_emit, o, indexes, flat, restr, cmd, relevant, specific)
            == rendered_text_spec(entries, no_emit, o, indexes, flat, restr, cmd, relevant, specific),
{
}

} // verus!
