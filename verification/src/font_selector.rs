use vstd::prelude::*;

use crate::format_mode::FormatMode;
use crate::text::{collect_chars, contains_chars, contains_seq};

verus! {

// ---------------------------------------------------------------------------
// Fonts and where they come from
// ---------------------------------------------------------------------------

/// What the selector reads of a bitmap font: its name and glyph size.
#[derive(Debug, Clone)]
pub struct FontInfo {
    pub name: String,
    pub width: i32,
    pub height: i32,
}

/// Describes the source of a font.
#[derive(Debug, Clone)]
pub struct FontSource {
    /// ANSI font slot (0-42)
    pub ansi_slot: Option<usize>,
    /// SAUCE font name
    pub sauce_name: Option<String>,
    /// Slot in the current document
    pub document_slot: Option<usize>,
    /// From the font library
    pub is_library: bool,
}

impl Default for FontSource {
    fn default() -> (r: FontSource)
        ensures
            r.ansi_slot is None,
            r.sauce_name is None,
            r.document_slot is None,
            !r.is_library,
    {
        FontSource { ansi_slot: None, sauce_name: None, document_slot: None, is_library: false }
    }
}

/// A font together with the places it comes from.
#[derive(Debug, Clone)]
pub struct FontEntry {
    pub font: FontInfo,
    pub source: FontSource,
}

/// Two fonts are the same entry when name and glyph size agree.
pub open spec fn same_font(a: FontInfo, b: FontInfo) -> bool {
    a.name@ == b.name@ && a.width == b.width && a.height == b.height
}

/// Whether `i` is the last position of `entries` holding a font like `font`.
pub open spec fn is_last_match(entries: Seq<FontEntry>, font: FontInfo, i: int) -> bool {
    &&& 0 <= i < entries.len()
    &&& same_font(entries[i].font, font)
    &&& forall|j: int| i < j < entries.len() ==> !same_font(#[trigger] entries[j].font, font)
}

/// The last position of `entries` holding a font like `font`, if any.
pub open spec fn last_match(entries: Seq<FontEntry>, font: FontInfo) -> Option<int> {
    if exists|i: int| 0 <= i < entries.len() && same_font(#[trigger] entries[i].font, font) {
        Some(choose|i: int| is_last_match(entries, font, i))
    } else {
        None
    }
}

/// A new entry for a font.
pub open spec fn fresh_entry(
    font: FontInfo,
    ansi_slot: Option<usize>,
    sauce_name: Option<String>,
    document_slot: Option<usize>,
) -> FontEntry {
    FontEntry {
        font,
        source: FontSource { ansi_slot, sauce_name, document_slot, is_library: false },
    }
}

/// The entries after the SAUCE fonts are added: each is a new entry.
pub open spec fn add_sauce_fonts(entries: Seq<FontEntry>, sauce: Seq<(String, FontInfo)>) -> Seq<FontEntry>
    decreases sauce.len(),
{
    if sauce.len() == 0 {
        entries
    } else {
        let c = sauce.last();
        add_sauce_fonts(entries, sauce.drop_last()).push(fresh_entry(c.1, None, Some(c.0), None))
    }
}

/// The entries after one ANSI font is added: it is merged into the last
/// entry with the same font, or becomes a new entry.
pub open spec fn add_ansi_font(entries: Seq<FontEntry>, slot: usize, font: FontInfo) -> Seq<FontEntry> {
    match last_match(entries, font) {
        Some(i) => entries.update(
            i,
            FontEntry {
                font: entries[i].font,
                source: FontSource { ansi_slot: Some(slot), ..entries[i].source },
            },
        ),
        None => entries.push(fresh_entry(font, Some(slot), None, None)),
    }
}

/// The entries after the ANSI fonts are added, in order.
pub open spec fn add_ansi_fonts(entries: Seq<FontEntry>, ansi: Seq<(usize, FontInfo)>) -> Seq<FontEntry>
    decreases ansi.len(),
{
    if ansi.len() == 0 {
        entries
    } else {
        let c = ansi.last();
        add_ansi_font(add_ansi_fonts(entries, ansi.drop_last()), c.0, c.1)
    }
}

/// The entries after one document font is added.
pub open spec fn add_document_font(entries: Seq<FontEntry>, slot: usize, font: FontInfo) -> Seq<FontEntry> {
    match last_match(entries, font) {
        Some(i) => entries.update(
            i,
            FontEntry {
                font: entries[i].font,
                source: FontSource { document_slot: Some(slot), ..entries[i].source },
            },
        ),
        None => entries.push(fresh_entry(font, None, None, Some(slot))),
    }
}

/// The entries after the document fonts are added, in order.
pub open spec fn add_document_fonts(entries: Seq<FontEntry>, docs: Seq<(usize, FontInfo)>) -> Seq<FontEntry>
    decreases docs.len(),
{
    if docs.len() == 0 {
        entries
    } else {
        let c = docs.last();
        add_document_font(add_document_fonts(entries, docs.drop_last()), c.0, c.1)
    }
}

/// The entry selected once the document fonts are added: that of the last
/// document font in slot `page`, or the first entry.
pub open spec fn document_selection(entries: Seq<FontEntry>, docs: Seq<(usize, FontInfo)>, page: usize) -> int
    decreases docs.len(),
{
    if docs.len() == 0 {
        0
    } else {
        let c = docs.last();
        let before = add_document_fonts(entries, docs.drop_last());
        if c.0 == page {
            match last_match(before, c.1) {
                Some(i) => i,
                None => before.len() as int,
            }
        } else {
            document_selection(entries, docs.drop_last(), page)
        }
    }
}

/// All fonts the selector offers: the SAUCE fonts, then (unless the document
/// takes SAUCE fonts only) the ANSI fonts, then the document's own fonts.
pub open spec fn spec_catalog(
    only_sauce: bool,
    sauce: Seq<(String, FontInfo)>,
    ansi: Seq<(usize, FontInfo)>,
    docs: Seq<(usize, FontInfo)>,
) -> Seq<FontEntry> {
    let with_sauce = add_sauce_fonts(Seq::empty(), sauce);
    let with_ansi = if only_sauce {
        with_sauce
    } else {
        add_ansi_fonts(with_sauce, ansi)
    };
    add_document_fonts(with_ansi, docs)
}

/// The entry first selected: that of the document font in the caret's slot.
pub open spec fn spec_catalog_selection(
    only_sauce: bool,
    sauce: Seq<(String, FontInfo)>,
    ansi: Seq<(usize, FontInfo)>,
    docs: Seq<(usize, FontInfo)>,
    page: usize,
) -> int {
    let with_sauce = add_sauce_fonts(Seq::empty(), sauce);
    let with_ansi = if only_sauce {
        with_sauce
    } else {
        add_ansi_fonts(with_sauce, ansi)
    };
    document_selection(with_ansi, docs, page)
}

fn copy_info(f: &FontInfo) -> (r: FontInfo)
    ensures
        r == *f,
{
    FontInfo { name: f.name.clone(), width: f.width, height: f.height }
}

fn copy_name(n: &Option<String>) -> (r: Option<String>)
    ensures
        r == *n,
{
    match n {
        Some(s) => Some(s.clone()),
        None => None,
    }
}

fn copy_entry(e: &FontEntry) -> (r: FontEntry)
    ensures
        r == *e,
{
    FontEntry {
        font: copy_info(&e.font),
        source: FontSource {
            ansi_slot: e.source.ansi_slot,
            sauce_name: copy_name(&e.source.sauce_name),
            document_slot: e.source.document_slot,
            is_library: e.source.is_library,
        },
    }
}

/// Whether two fonts have the same name and glyph size.
pub fn fonts_match(a: &FontInfo, b: &FontInfo) -> (r: bool)
    ensures
        r == same_font(*a, *b),
{
    a.name == b.name && a.width == b.width && a.height == b.height
}

/// The last position of `entries` holding a font like `font`.
pub fn find_last_match(entries: &Vec<FontEntry>, font: &FontInfo) -> (r: Option<usize>)
    ensures
        match r {
            Some(i) => i < entries@.len() && last_match(entries@, *font) == Some(i as int),
            None => last_match(entries@, *font) is None,
        },
{
    let mut i: usize = entries.len();
    while i > 0
        invariant
            0 <= i <= entries@.len(),
            forall|j: int| i <= j < entries@.len() ==> !same_font(#[trigger] entries@[j].font, *font),
        decreases i,
    {
        i = i - 1;
        if fonts_match(&entries[i].font, font) {
            proof {
                assert(is_last_match(entries@, *font, i as int));
                let k = choose|k: int| is_last_match(entries@, *font, k);
                if k < i {
                    assert(!same_font(entries@[i as int].font, *font));
                }
                if k > i {
                    assert(!same_font(entries@[k].font, *font));
                }
            }
            return Some(i);
        }
    }
    None
}

/// Adds an ANSI font to `entries` as `add_ansi_font` says.
fn push_ansi_font(entries: &mut Vec<FontEntry>, slot: usize, font: &FontInfo)
    ensures
        final(entries)@ == add_ansi_font(old(entries)@, slot, *font),
{
    match find_last_match(entries, font) {
        Some(i) => {
            let e = copy_entry(&entries[i]);
            let updated = FontEntry {
                font: e.font,
                source: FontSource { ansi_slot: Some(slot), ..e.source },
            };
            entries.set(i, updated);
        },
        None => {
            entries.push(
                FontEntry {
                    font: copy_info(font),
                    source: FontSource {
                        ansi_slot: Some(slot),
                        sauce_name: None,
                        document_slot: None,
                        is_library: false,
                    },
                },
            );
        },
    }
}

/// Adds a document font to `entries` as `add_document_font` says, and gives
/// the position it went to.
fn push_document_font(entries: &mut Vec<FontEntry>, slot: usize, font: &FontInfo) -> (pos: usize)
    ensures
        final(entries)@ == add_document_font(old(entries)@, slot, *font),
        pos == match last_match(old(entries)@, *font) {
            Some(i) => i,
            None => old(entries)@.len() as int,
        },
{
    match find_last_match(entries, font) {
        Some(i) => {
            let e = copy_entry(&entries[i]);
            let updated = FontEntry {
                font: e.font,
                source: FontSource { document_slot: Some(slot), ..e.source },
            };
            entries.set(i, updated);
            i
        },
        None => {
            let pos = entries.len();
            entries.push(
                FontEntry {
                    font: copy_info(font),
                    source: FontSource {
                        ansi_slot: None,
                        sauce_name: None,
                        document_slot: Some(slot),
                        is_library: false,
                    },
                },
            );
            pos
        },
    }
}

/// Collects the fonts the selector offers, merging fonts that come from
/// several places into one entry, and picks the entry of the document font
/// in slot `current_page` (or the first entry).
pub fn collect_fonts(
    only_sauce_fonts: bool,
    sauce_fonts: &Vec<(String, FontInfo)>,
    ansi_fonts: &Vec<(usize, FontInfo)>,
    document_fonts: &Vec<(usize, FontInfo)>,
    current_page: usize,
) -> (r: (Vec<FontEntry>, usize))
    ensures
        r.0@ == spec_catalog(only_sauce_fonts, sauce_fonts@, ansi_fonts@, document_fonts@),
        r.1 == spec_catalog_selection(only_sauce_fonts, sauce_fonts@, ansi_fonts@, document_fonts@, current_page),
{
    let mut fonts: Vec<FontEntry> = Vec::new();
    let mut k: usize = 0;
    while k < sauce_fonts.len()
        invariant
            0 <= k <= sauce_fonts@.len(),
            fonts@ == add_sauce_fonts(Seq::empty(), sauce_fonts@.take(k as int)),
        decreases sauce_fonts@.len() - k,
    {
        let name = sauce_fonts[k].0.clone();
        let font = copy_info(&sauce_fonts[k].1);
        fonts.push(
            FontEntry {
                font,
                source: FontSource { ansi_slot: None, sauce_name: Some(name), document_slot: None, is_library: false },
            },
        );
        assert(sauce_fonts@.take(k + 1).drop_last() =~= sauce_fonts@.take(k as int));
        k = k + 1;
    }
    assert(sauce_fonts@.take(sauce_fonts@.len() as int) =~= sauce_fonts@);
    let ghost with_sauce = fonts@;
    if !only_sauce_fonts {
        let mut k: usize = 0;
        while k < ansi_fonts.len()
            invariant
                0 <= k <= ansi_fonts@.len(),
                fonts@ == add_ansi_fonts(with_sauce, ansi_fonts@.take(k as int)),
            decreases ansi_fonts@.len() - k,
        {
            push_ansi_font(&mut fonts, ansi_fonts[k].0, &ansi_fonts[k].1);
            assert(ansi_fonts@.take(k + 1).drop_last() =~= ansi_fonts@.take(k as int));
            k = k + 1;
        }
        assert(ansi_fonts@.take(ansi_fonts@.len() as int) =~= ansi_fonts@);
    }
    let ghost with_ansi = fonts@;
    let mut selected: usize = 0;
    let mut k: usize = 0;
    while k < document_fonts.len()
        invariant
            0 <= k <= document_fonts@.len(),
            fonts@ == add_document_fonts(with_ansi, document_fonts@.take(k as int)),
            selected == document_selection(with_ansi, document_fonts@.take(k as int), current_page),
        decreases document_fonts@.len() - k,
    {
        let slot = document_fonts[k].0;
        let pos = push_document_font(&mut fonts, slot, &document_fonts[k].1);
        if slot == current_page {
            selected = pos;
        }
        assert(document_fonts@.take(k + 1).drop_last() =~= document_fonts@.take(k as int));
        k = k + 1;
    }
    assert(document_fonts@.take(document_fonts@.len() as int) =~= document_fonts@);
    (fonts, selected)
}

/// Two entries hold the same font only where the later one is a SAUCE font
/// (SAUCE names are listed one entry each; every other source of a font
/// joins the entry already there).
pub open spec fn merged(entries: Seq<FontEntry>) -> bool {
    forall|i: int, j: int|
        #![trigger entries[i], entries[j]]
        0 <= i < j < entries.len() && same_font(entries[i].font, entries[j].font) ==> entries[j].source.sauce_name is Some
}

proof fn lemma_sauce_entries(sauce: Seq<(String, FontInfo)>)
    ensures
        forall|k: int|
            0 <= k < add_sauce_fonts(Seq::empty(), sauce).len() ==> (#[trigger] add_sauce_fonts(
                Seq::empty(),
                sauce,
            )[k]).source.sauce_name is Some,
    decreases sauce.len(),
{
    if sauce.len() > 0 {
        lemma_sauce_entries(sauce.drop_last());
        let before = add_sauce_fonts(Seq::empty(), sauce.drop_last());
        let c = sauce.last();
        let after = before.push(fresh_entry(c.1, None, Some(c.0), None));
        assert forall|k: int| 0 <= k < after.len() implies (#[trigger] after[k]).source.sauce_name is Some by {
            if k < before.len() {
                assert(after[k] == before[k]);
            }
        }
    }
}

proof fn lemma_last_match_exists(entries: Seq<FontEntry>, font: FontInfo)
    requires
        exists|i: int| 0 <= i < entries.len() && same_font(#[trigger] entries[i].font, font),
    ensures
        exists|i: int| is_last_match(entries, font, i),
    decreases entries.len(),
{
    let n = entries.len() as int;
    if same_font(entries[n - 1].font, font) {
        assert(is_last_match(entries, font, n - 1));
    } else {
        let rest = entries.drop_last();
        let k = choose|i: int| 0 <= i < entries.len() && same_font(#[trigger] entries[i].font, font);
        assert(rest[k] == entries[k]);
        lemma_last_match_exists(rest, font);
        let j = choose|i: int| is_last_match(rest, font, i);
        assert forall|m: int| j < m < entries.len() implies !same_font(#[trigger] entries[m].font, font) by {
            if m < n - 1 {
                assert(rest[m] == entries[m]);
            }
        }
        assert(rest[j] == entries[j]);
        assert(is_last_match(entries, font, j));
    }
}

proof fn lemma_no_match(entries: Seq<FontEntry>, font: FontInfo)
    requires
        last_match(entries, font) is None,
    ensures
        forall|k: int| 0 <= k < entries.len() ==> !same_font(#[trigger] entries[k].font, font),
{
}

proof fn lemma_add_ansi_merged(entries: Seq<FontEntry>, slot: usize, font: FontInfo)
    requires
        merged(entries),
    ensures
        merged(add_ansi_font(entries, slot, font)),
{
    let after = add_ansi_font(entries, slot, font);
    match last_match(entries, font) {
        Some(i) => {
            assert(exists|i: int| 0 <= i < entries.len() && same_font(#[trigger] entries[i].font, font));
            lemma_last_match_exists(entries, font);
            assert(is_last_match(entries, font, i));
            assert forall|a: int, b: int|
                #![trigger after[a], after[b]]
                0 <= a < b < after.len() && same_font(after[a].font, after[b].font) implies after[b].source.sauce_name is Some by {
                assert(after[a].font == entries[a].font);
                assert(after[b].font == entries[b].font);
                assert(after[b].source.sauce_name == entries[b].source.sauce_name);
            }
        },
        None => {
            lemma_no_match(entries, font);
            assert forall|a: int, b: int|
                #![trigger after[a], after[b]]
                0 <= a < b < after.len() && same_font(after[a].font, after[b].font) implies after[b].source.sauce_name is Some by {
                if b == entries.len() {
                    assert(after[a] == entries[a]);
                    assert(!same_font(entries[a].font, font));
                } else {
                    assert(after[a] == entries[a]);
                    assert(after[b] == entries[b]);
                }
            }
        },
    }
}

proof fn lemma_add_document_merged(entries: Seq<FontEntry>, slot: usize, font: FontInfo)
    requires
        merged(entries),
    ensures
        merged(add_document_font(entries, slot, font)),
{
    let after = add_document_font(entries, slot, font);
    match last_match(entries, font) {
        Some(i) => {
            assert(exists|i: int| 0 <= i < entries.len() && same_font(#[trigger] entries[i].font, font));
            lemma_last_match_exists(entries, font);
            assert(is_last_match(entries, font, i));
            assert forall|a: int, b: int|
                #![trigger after[a], after[b]]
                0 <= a < b < after.len() && same_font(after[a].font, after[b].font) implies after[b].source.sauce_name is Some by {
                assert(after[a].font == entries[a].font);
                assert(after[b].font == entries[b].font);
                assert(after[b].source.sauce_name == entries[b].source.sauce_name);
            }
        },
        None => {
            lemma_no_match(entries, font);
            assert forall|a: int, b: int|
                #![trigger after[a], after[b]]
                0 <= a < b < after.len() && same_font(after[a].font, after[b].font) implies after[b].source.sauce_name is Some by {
                if b == entries.len() {
                    assert(after[a] == entries[a]);
                    assert(!same_font(entries[a].font, font));
                } else {
                    assert(after[a] == entries[a]);
                    assert(after[b] == entries[b]);
                }
            }
        },
    }
}

proof fn lemma_add_ansi_fonts_merged(entries: Seq<FontEntry>, ansi: Seq<(usize, FontInfo)>)
    requires
        merged(entries),
    ensures
        merged(add_ansi_fonts(entries, ansi)),
    decreases ansi.len(),
{
    if ansi.len() > 0 {
        lemma_add_ansi_fonts_merged(entries, ansi.drop_last());
        lemma_add_ansi_merged(add_ansi_fonts(entries, ansi.drop_last()), ansi.last().0, ansi.last().1);
    }
}

proof fn lemma_add_document_fonts_merged(entries: Seq<FontEntry>, docs: Seq<(usize, FontInfo)>)
    requires
        merged(entries),
    ensures
        merged(add_document_fonts(entries, docs)),
    decreases docs.len(),
{
    if docs.len() > 0 {
        lemma_add_document_fonts_merged(entries, docs.drop_last());
        lemma_add_document_merged(add_document_fonts(entries, docs.drop_last()), docs.last().0, docs.last().1);
    }
}

/// The fonts offered list each font once, whatever places it comes from;
/// only fonts that several SAUCE names denote are listed once per name.
pub proof fn lemma_catalog_merged(
    only_sauce: bool,
    sauce: Seq<(String, FontInfo)>,
    ansi: Seq<(usize, FontInfo)>,
    docs: Seq<(usize, FontInfo)>,
)
    ensures
        merged(spec_catalog(only_sauce, sauce, ansi, docs)),
{
    let with_sauce = add_sauce_fonts(Seq::empty(), sauce);
    lemma_sauce_entries(sauce);
    assert(merged(with_sauce));
    let with_ansi = if only_sauce {
        with_sauce
    } else {
        add_ansi_fonts(with_sauce, ansi)
    };
    if !only_sauce {
        lemma_add_ansi_fonts_merged(with_sauce, ansi);
    }
    lemma_add_document_fonts_merged(with_ansi, docs);
}

// ---------------------------------------------------------------------------
// Filtering the list
// ---------------------------------------------------------------------------

/// What `str::to_lowercase` gives for a text.
pub uninterp spec fn lowercase(s: Seq<char>) -> Seq<char>;

/// Lowercases a text (`str::to_lowercase`). The result follows Unicode's
/// case tables and depends on the text alone; the contract names it and
/// says nothing more of it.
#[verifier::external_body]
fn to_lowercase(s: &str) -> (r: String)
    ensures
        r@ == lowercase(s@),
{
    s.to_lowercase()
}

/// Whether a font's source is among the kinds of fonts shown.
pub open spec fn source_shown(src: FontSource, sauce: bool, ansi: bool, library: bool, document: bool) -> bool {
    ||| sauce && src.sauce_name is Some
    ||| ansi && src.ansi_slot is Some
    ||| library && src.is_library
    ||| document && src.document_slot is Some
}

/// Whether a lowercased font name passes a lowercased filter: an empty filter
/// passes everything, another one must occur in the name.
pub open spec fn name_passes(name_lower: Seq<char>, filter_lower: Seq<char>) -> bool {
    filter_lower.len() == 0 || contains_seq(name_lower, filter_lower)
}

/// Whether an entry is listed under the given kinds and filter text.
pub open spec fn entry_shown(e: FontEntry, sauce: bool, ansi: bool, library: bool, document: bool, filter: Seq<char>) -> bool {
    source_shown(e.source, sauce, ansi, library, document) && name_passes(lowercase(e.font.name@), lowercase(filter))
}

/// The positions of the listed entries, in order.
pub open spec fn spec_filtered(
    fonts: Seq<FontEntry>,
    sauce: bool,
    ansi: bool,
    library: bool,
    document: bool,
    filter: Seq<char>,
) -> Seq<usize> {
    Seq::new(fonts.len(), |i: int| i as usize).filter(
        |i: usize| entry_shown(fonts[i as int], sauce, ansi, library, document, filter),
    )
}

/// Whether a lowercased name passes a lowercased filter.
pub fn name_passes_filter(name_lower: &[char], filter_lower: &[char]) -> (r: bool)
    ensures
        r == name_passes(name_lower@, filter_lower@),
{
    filter_lower.len() == 0 || contains_chars(name_lower, filter_lower)
}

/// Whether a source is among the kinds shown.
pub fn is_source_shown(src: &FontSource, sauce: bool, ansi: bool, library: bool, document: bool) -> (r: bool)
    ensures
        r == source_shown(*src, sauce, ansi, library, document),
{
    (sauce && src.sauce_name.is_some()) || (ansi && src.ansi_slot.is_some()) || (library && src.is_library) || (
    document && src.document_slot.is_some())
}

/// The positions of the entries listed under the given kinds of fonts and
/// filter text (matched without regard to case), in order.
pub fn filtered_font_indices(
    fonts: &Vec<FontEntry>,
    sauce: bool,
    ansi: bool,
    library: bool,
    document: bool,
    filter: &str,
) -> (r: Vec<usize>)
    ensures
        r@ == spec_filtered(fonts@, sauce, ansi, library, document, filter@),
{
    let filter_lower_s = to_lowercase(filter);
    let filter_lower = collect_chars(filter_lower_s.as_str());
    let ghost n = fonts@.len();
    let ghost all = Seq::new(n, |i: int| i as usize);
    let ghost pred = |i: usize| entry_shown(fonts@[i as int], sauce, ansi, library, document, filter@);
    let mut r: Vec<usize> = Vec::new();
    assert(all.take(0) =~= Seq::<usize>::empty());
    assert(Seq::<usize>::empty().filter(pred) =~= Seq::<usize>::empty()) by {
        reveal(Seq::filter);
    }
    let mut i: usize = 0;
    while i < fonts.len()
        invariant
            n == fonts@.len(),
            0 <= i <= n,
            filter_lower@ == lowercase(filter@),
            all == Seq::new(n, |i: int| i as usize),
            pred == (|i: usize| entry_shown(fonts@[i as int], sauce, ansi, library, document, filter@)),
            r@ == all.take(i as int).filter(pred),
        decreases n - i,
    {
        proof {
            assert(all.take(i + 1) =~= all.take(i as int).push(all[i as int]));
            all.take(i as int).lemma_filter_push(all[i as int], pred);
        }
        let entry = &fonts[i];
        if is_source_shown(&entry.source, sauce, ansi, library, document) {
            let name_lower_s = to_lowercase(entry.font.name.as_str());
            let name_lower = collect_chars(name_lower_s.as_str());
            if name_passes_filter(&name_lower, &filter_lower) {
                r.push(i);
            }
        }
        i = i + 1;
    }
    assert(all.take(n as int) =~= all);
    r
}

// ---------------------------------------------------------------------------
// The dialog
// ---------------------------------------------------------------------------

/// Messages for the font selector dialog.
#[derive(Debug, Clone)]
pub enum FontSelectorMessage {
    /// Filter text changed
    SetFilter(String),
    /// Clear filter
    ClearFilter,
    /// Toggle SAUCE fonts visibility
    ToggleSauce,
    /// Toggle ANSI fonts visibility
    ToggleAnsi,
    /// Toggle library fonts visibility
    ToggleLibrary,
    /// Toggle document fonts visibility
    ToggleDocument,
    /// Select a font by index
    SelectFont(usize),
    /// For XBin Extended: select which slot to edit
    SelectSlot(usize),
    /// Apply selection
    Apply,
    /// Cancel dialog
    Cancel,
}

/// Result of the font selector: positions refer to the dialog's font list.
#[derive(Debug, Clone, Copy, PartialEq, Eq, Structural)]
pub enum FontSelectorResult {
    /// Single font selected (for LegacyDos/XBin)
    SingleFont(usize),
    /// Font selected for a specific slot (for XBin Extended / Unrestricted)
    FontForSlot { slot: usize, font: usize },
}

/// What the dialog asks of its host after a message.
#[derive(Debug, Clone, Copy, PartialEq, Eq, Structural)]
pub enum FontDialogAction {
    /// Stay open
    Stay,
    /// Close without applying
    Close,
    /// Close and apply this result
    CloseWith(FontSelectorResult),
}

/// Keys that move through the font list.
#[derive(Debug, Clone, Copy, PartialEq, Eq, Structural)]
pub enum ListKey {
    Up,
    Down,
    PageUp,
    PageDown,
    Home,
    End,
}

/// How the list should scroll after a key was handled.
#[derive(Debug, Clone, Copy, PartialEq, Eq, Structural)]
pub enum ListScroll {
    /// Bring the selected row into view
    ToSelected,
    /// Up by one page
    PageUp,
    /// Down by one page
    PageDown,
    /// To the top
    Top,
    /// To the bottom
    Bottom,
}

/// Which title the dialog shows: one font, two slots, or any number of fonts.
#[derive(Debug, Clone, Copy, PartialEq, Eq, Structural)]
pub enum FontTitleKind {
    Single,
    Dual,
    Full,
}

/// State of the font selector dialog.
pub struct FontSelectorDialog {
    /// Current format mode - determines dialog behavior
    pub format_mode: FormatMode,
    /// All available fonts
    pub fonts: Vec<FontEntry>,
    /// Currently selected font index
    pub selected_index: usize,
    /// Filter string
    pub filter: String,
    pub show_sauce: bool,
    pub show_ansi: bool,
    pub show_library: bool,
    pub show_document: bool,
    /// For XBin Extended: which slot is being edited (0 or 1)
    pub active_slot: usize,
    /// For XBin Extended: the fonts currently in the two slots
    pub slot_fonts: (Option<FontInfo>, Option<FontInfo>),
    /// Only SAUCE-compatible fonts are offered
    pub only_sauce_fonts: bool,
    /// Positions of the listed fonts
    pub filtered_indices: Vec<usize>,
}

/// The first position of `x` in `s`, if any.
pub open spec fn first_position(s: Seq<usize>, x: usize) -> Option<int> {
    if s.contains(x) {
        Some(choose|p: int| 0 <= p < s.len() && s[p] == x && forall|q: int| 0 <= q < p ==> s[q] != x)
    } else {
        None
    }
}

/// The selection kept after the list changed: when the list is not empty
/// and lacks the selected font, its first font is selected.
pub open spec fn kept_selection(listed: Seq<usize>, selected: usize) -> usize {
    if listed.len() > 0 && !listed.contains(selected) {
        listed[0]
    } else {
        selected
    }
}

/// The result for the selected font, by format mode.
pub open spec fn spec_result(d: FontSelectorDialog) -> Option<FontSelectorResult> {
    if d.selected_index < d.fonts@.len() {
        Some(
            match d.format_mode {
                FormatMode::LegacyDos | FormatMode::XBin => FontSelectorResult::SingleFont(d.selected_index),
                FormatMode::XBinExtended => FontSelectorResult::FontForSlot {
                    slot: d.active_slot,
                    font: d.selected_index,
                },
                FormatMode::Unrestricted => FontSelectorResult::FontForSlot {
                    slot: match d.fonts@[d.selected_index as int].source.document_slot {
                        Some(s) => s,
                        None => 0,
                    },
                    font: d.selected_index,
                },
            },
        )
    } else {
        None
    }
}

/// The action that applying the selection asks for.
pub open spec fn spec_apply(d: FontSelectorDialog) -> FontDialogAction {
    match spec_result(d) {
        Some(r) => FontDialogAction::CloseWith(r),
        None => FontDialogAction::Stay,
    }
}

/// The position of `x` in `v`, searched from the front.
pub fn position_of(v: &Vec<usize>, x: usize) -> (r: Option<usize>)
    ensures
        match r {
            Some(p) => p < v@.len() && first_position(v@, x) == Some(p as int),
            None => first_position(v@, x) is None,
        },
{
    let mut p: usize = 0;
    while p < v.len()
        invariant
            0 <= p <= v@.len(),
            forall|q: int| 0 <= q < p ==> v@[q] != x,
        decreases v@.len() - p,
    {
        if v[p] == x {
            proof {
                assert(v@.contains(x));
                let c = choose|c: int| 0 <= c < v@.len() && v@[c] == x && forall|q: int| 0 <= q < c ==> v@[q] != x;
                if c < p {
                    assert(v@[c] != x);
                }
                if c > p {
                    assert(v@[p as int] != x);
                }
            }
            return Some(p);
        }
        p = p + 1;
    }
    None
}

impl FontSelectorDialog {
    /// The positions that should be listed under the current filter.
    pub open spec fn listed(self) -> Seq<usize> {
        spec_filtered(self.fonts@, self.show_sauce, self.show_ansi, self.show_library, self.show_document, self.filter@)
    }

    /// The list agrees with the fonts, kinds shown and filter text.
    pub open spec fn wf(self) -> bool {
        self.filtered_indices@ == self.listed()
    }

    /// `self` is `before` with its list rebuilt: the fonts, mode and slots
    /// are kept, and the selection is kept where the new list allows it.
    pub open spec fn relisted_from(self, before: FontSelectorDialog) -> bool {
        &&& self.filtered_indices@ == self.listed()
        &&& self.selected_index == kept_selection(self.listed(), before.selected_index)
        &&& self.fonts@ == before.fonts@
        &&& self.format_mode == before.format_mode
        &&& self.active_slot == before.active_slot
        &&& self.slot_fonts == before.slot_fonts
        &&& self.only_sauce_fonts == before.only_sauce_fonts
    }

    /// Everything but the selection is as in `before`.
    pub open spec fn same_but_selection(self, before: FontSelectorDialog) -> bool {
        &&& self.fonts@ == before.fonts@
        &&& self.filtered_indices@ == before.filtered_indices@
        &&& self.filter@ == before.filter@
        &&& self.show_sauce == before.show_sauce
        &&& self.show_ansi == before.show_ansi
        &&& self.show_library == before.show_library
        &&& self.show_document == before.show_document
        &&& self.format_mode == before.format_mode
        &&& self.active_slot == before.active_slot
        &&& self.slot_fonts == before.slot_fonts
        &&& self.only_sauce_fonts == before.only_sauce_fonts
    }

    /// Rebuilds the list of shown fonts and keeps the selection in it.
    fn update_filtered_indices(&mut self)
        ensures
            final(self).relisted_from(*old(self)),
            final(self).filter@ == old(self).filter@,
            final(self).show_sauce == old(self).show_sauce,
            final(self).show_ansi == old(self).show_ansi,
            final(self).show_library == old(self).show_library,
            final(self).show_document == old(self).show_document,
    {
        let listed = filtered_font_indices(
            &self.fonts,
            self.show_sauce,
            self.show_ansi,
            self.show_library,
            self.show_document,
            self.filter.as_str(),
        );
        if listed.len() > 0 {
            match position_of(&listed, self.selected_index) {
                Some(_) => {
                    proof {
                        assert(listed@.contains(self.selected_index)) by {
                            let p = choose|p: int|
                                0 <= p < listed@.len() && listed@[p] == self.selected_index && forall|q: int|
                                    0 <= q < p ==> listed@[q] != self.selected_index;
                        }
                    }
                },
                None => {
                    self.selected_index = listed[0];
                },
            }
        }
        self.filtered_indices = listed;
    }

    /// A dialog offering the given fonts: the SAUCE fonts, the ANSI fonts
    /// (unless the document takes SAUCE fonts only) and the document's own,
    /// with the font in the caret's slot selected. SAUCE and document fonts
    /// are shown; ANSI and library fonts too, unless the document takes
    /// SAUCE fonts only.
    pub fn new(
        format_mode: FormatMode,
        only_sauce_fonts: bool,
        sauce_fonts: &Vec<(String, FontInfo)>,
        ansi_fonts: &Vec<(usize, FontInfo)>,
        document_fonts: &Vec<(usize, FontInfo)>,
        current_page: usize,
        slot_fonts: (Option<FontInfo>, Option<FontInfo>),
    ) -> (d: FontSelectorDialog)
        ensures
            d.wf(),
            d.format_mode == format_mode,
            d.only_sauce_fonts == only_sauce_fonts,
            d.fonts@ == spec_catalog(only_sauce_fonts, sauce_fonts@, ansi_fonts@, document_fonts@),
            d.filter@ == Seq::<char>::empty(),
            d.show_sauce,
            d.show_ansi == !only_sauce_fonts,
            d.show_library == !only_sauce_fonts,
            d.show_document,
            d.active_slot == 0,
            d.slot_fonts == if format_mode == FormatMode::XBinExtended {
                slot_fonts
            } else {
                (None, None)
            },
            d.selected_index == kept_selection(
                d.listed(),
                spec_catalog_selection(only_sauce_fonts, sauce_fonts@, ansi_fonts@, document_fonts@, current_page) as usize,
            ),
    {
        let (fonts, selected) = collect_fonts(only_sauce_fonts, sauce_fonts, ansi_fonts, document_fonts, current_page);
        let slots = if format_mode == FormatMode::XBinExtended {
            slot_fonts
        } else {
            (None, None)
        };
        let mut dialog = FontSelectorDialog {
            format_mode,
            fonts,
            selected_index: selected,
            filter: String::new(),
            show_sauce: true,
            show_ansi: !only_sauce_fonts,
            show_library: !only_sauce_fonts,
            show_document: true,
            active_slot: 0,
            slot_fonts: slots,
            only_sauce_fonts,
            filtered_indices: Vec::new(),
        };
        dialog.update_filtered_indices();
        dialog
    }

    /// What the title says: the kind of choice the format mode offers, and
    /// how many fonts are listed.
    pub fn title_parts(&self) -> (r: (FontTitleKind, usize))
        ensures
            r.0 == match self.format_mode {
                FormatMode::LegacyDos | FormatMode::XBin => FontTitleKind::Single,
                FormatMode::XBinExtended => FontTitleKind::Dual,
                FormatMode::Unrestricted => FontTitleKind::Full,
            },
            r.1 == self.filtered_indices@.len(),
    {
        let kind = match self.format_mode {
            FormatMode::LegacyDos | FormatMode::XBin => FontTitleKind::Single,
            FormatMode::XBinExtended => FontTitleKind::Dual,
            FormatMode::Unrestricted => FontTitleKind::Full,
        };
        (kind, self.filtered_indices.len())
    }

    /// The result for the selected font, if it exists.
    pub fn create_result(&self) -> (r: Option<FontSelectorResult>)
        ensures
            r == spec_result(*self),
            self.selected_index < self.fonts@.len() && self.format_mode == FormatMode::XBinExtended ==> r == Some(
                FontSelectorResult::FontForSlot { slot: self.active_slot, font: self.selected_index },
            ),
            self.selected_index >= self.fonts@.len() ==> r is None,
    {
        if self.selected_index >= self.fonts.len() {
            return None;
        }
        let entry = &self.fonts[self.selected_index];
        match self.format_mode {
            FormatMode::LegacyDos | FormatMode::XBin => Some(FontSelectorResult::SingleFont(self.selected_index)),
            FormatMode::XBinExtended => Some(
                FontSelectorResult::FontForSlot { slot: self.active_slot, font: self.selected_index },
            ),
            FormatMode::Unrestricted => {
                let slot = match entry.source.document_slot {
                    Some(s) => s,
                    None => 0,
                };
                Some(FontSelectorResult::FontForSlot { slot, font: self.selected_index })
            },
        }
    }

    /// Confirming applies the selected font when there is one.
    pub fn request_confirm(&self) -> (r: FontDialogAction)
        ensures
            r == spec_apply(*self),
    {
        match self.create_result() {
            Some(res) => FontDialogAction::CloseWith(res),
            None => FontDialogAction::Stay,
        }
    }

    /// Cancelling closes the dialog.
    pub fn request_cancel(&self) -> (r: FontDialogAction)
        ensures
            r == FontDialogAction::Close,
    {
        FontDialogAction::Close
    }

    /// The font on row `row` of the list, if there is such a row.
    pub fn font_at_row(&self, row: usize) -> (r: Option<usize>)
        ensures
            row < self.filtered_indices@.len() ==> r == Some(self.filtered_indices@[row as int]),
            row >= self.filtered_indices@.len() ==> r is None,
    {
        if row < self.filtered_indices.len() {
            Some(self.filtered_indices[row])
        } else {
            None
        }
    }

    /// Handles a message of the dialog.
    pub fn update(&mut self, message: FontSelectorMessage) -> (r: FontDialogAction)
        ensures
            match message {
                FontSelectorMessage::SetFilter(f) => {
                    &&& final(self).relisted_from(*old(self))
                    &&& final(self).filter@ == f@
                    &&& final(self).show_sauce == old(self).show_sauce
                    &&& final(self).show_ansi == old(self).show_ansi
                    &&& final(self).show_library == old(self).show_library
                    &&& final(self).show_document == old(self).show_document
                    &&& r == FontDialogAction::Stay
                },
                FontSelectorMessage::ClearFilter => {
                    &&& final(self).relisted_from(*old(self))
                    &&& final(self).filter@ == Seq::<char>::empty()
                    &&& final(self).show_sauce == old(self).show_sauce
                    &&& final(self).show_ansi == old(self).show_ansi
                    &&& final(self).show_library == old(self).show_library
                    &&& final(self).show_document == old(self).show_document
                    &&& r == FontDialogAction::Stay
                },
                FontSelectorMessage::ToggleSauce => {
                    &&& final(self).relisted_from(*old(self))
                    &&& final(self).filter@ == old(self).filter@
                    &&& final(self).show_sauce == !old(self).show_sauce
                    &&& final(self).show_ansi == old(self).show_ansi
                    &&& final(self).show_library == old(self).show_library
                    &&& final(self).show_document == old(self).show_document
                    &&& r == FontDialogAction::Stay
                },
                FontSelectorMessage::ToggleAnsi => {
                    &&& final(self).relisted_from(*old(self))
                    &&& final(self).filter@ == old(self).filter@
                    &&& final(self).show_sauce == old(self).show_sauce
                    &&& final(self).show_ansi == !old(self).show_ansi
                    &&& final(self).show_library == old(self).show_library
                    &&& final(self).show_document == old(self).show_document
                    &&& r == FontDialogAction::Stay
                },
                FontSelectorMessage::ToggleLibrary => {
                    &&& final(self).relisted_from(*old(self))
                    &&& final(self).filter@ == old(self).filter@
                    &&& final(self).show_sauce == old(self).show_sauce
                    &&& final(self).show_ansi == old(self).show_ansi
                    &&& final(self).show_library == !old(self).show_library
                    &&& final(self).show_document == old(self).show_document
                    &&& r == FontDialogAction::Stay
                },
                FontSelectorMessage::ToggleDocument => {
                    &&& final(self).relisted_from(*old(self))
                    &&& final(self).filter@ == old(self).filter@
                    &&& final(self).show_sauce == old(self).show_sauce
                    &&& final(self).show_ansi == old(self).show_ansi
                    &&& final(self).show_library == old(self).show_library
                    &&& final(self).show_document == !old(self).show_document
                    &&& r == FontDialogAction::Stay
                },
                FontSelectorMessage::SelectFont(idx) => {
                    &&& final(self).same_but_selection(*old(self))
                    &&& final(self).selected_index == idx
                    &&& r == FontDialogAction::Stay
                },
                FontSelectorMessage::SelectSlot(slot) => {
                    &&& final(self).fonts@ == old(self).fonts@
                    &&& final(self).filtered_indices@ == old(self).filtered_indices@
                    &&& final(self).filter@ == old(self).filter@
                    &&& final(self).selected_index == old(self).selected_index
                    &&& final(self).show_sauce == old(self).show_sauce
                    &&& final(self).show_ansi == old(self).show_ansi
                    &&& final(self).show_library == old(self).show_library
                    &&& final(self).show_document == old(self).show_document
                    &&& final(self).format_mode == old(self).format_mode
                    &&& final(self).active_slot == slot
                    &&& r == FontDialogAction::Stay
                },
                FontSelectorMessage::Apply => {
                    &&& final(self).same_but_selection(*old(self))
                    &&& final(self).selected_index == old(self).selected_index
                    &&& r == spec_apply(*old(self))
                },
                FontSelectorMessage::Cancel => {
                    &&& final(self).same_but_selection(*old(self))
                    &&& final(self).selected_index == old(self).selected_index
                    &&& r == FontDialogAction::Close
                },
            },
    {
        match message {
            FontSelectorMessage::SetFilter(f) => {
                self.filter = f;
                self.update_filtered_indices();
                FontDialogAction::Stay
            },
            FontSelectorMessage::ClearFilter => {
                self.filter = String::new();
                self.update_filtered_indices();
                FontDialogAction::Stay
            },
            FontSelectorMessage::ToggleSauce => {
                self.show_sauce = !self.show_sauce;
                self.update_filtered_indices();
                FontDialogAction::Stay
            },
            FontSelectorMessage::ToggleAnsi => {
                self.show_ansi = !self.show_ansi;
                self.update_filtered_indices();
                FontDialogAction::Stay
            },
            FontSelectorMessage::ToggleLibrary => {
                self.show_library = !self.show_library;
                self.update_filtered_indices();
                FontDialogAction::Stay
            },
            FontSelectorMessage::ToggleDocument => {
                self.show_document = !self.show_document;
                self.update_filtered_indices();
                FontDialogAction::Stay
            },
            FontSelectorMessage::SelectFont(idx) => {
                self.selected_index = idx;
                FontDialogAction::Stay
            },
            FontSelectorMessage::SelectSlot(slot) => {
                self.active_slot = slot;
                FontDialogAction::Stay
            },
            FontSelectorMessage::Apply => self.request_confirm(),
            FontSelectorMessage::Cancel => FontDialogAction::Close,
        }
    }

    /// Moves through the list with a key. Up and Down select the neighbour of
    /// the selected font in the list, Home and End its first and last font;
    /// Page Up and Page Down only scroll. Gives how the list should scroll,
    /// or `None` when the key did nothing.
    pub fn handle_list_key(&mut self, key: ListKey) -> (r: Option<ListScroll>)
        ensures
            final(self).same_but_selection(*old(self)),
            match key {
                ListKey::Up => match first_position(old(self).filtered_indices@, old(self).selected_index) {
                    Some(p) if p > 0 => {
                        &&& final(self).selected_index == old(self).filtered_indices@[p - 1]
                        &&& r == Some(ListScroll::ToSelected)
                    },
                    _ => final(self).selected_index == old(self).selected_index && r is None,
                },
                ListKey::Down => match first_position(old(self).filtered_indices@, old(self).selected_index) {
                    Some(p) if p + 1 < old(self).filtered_indices@.len() => {
                        &&& final(self).selected_index == old(self).filtered_indices@[p + 1]
                        &&& r == Some(ListScroll::ToSelected)
                    },
                    _ => final(self).selected_index == old(self).selected_index && r is None,
                },
                ListKey::PageUp => final(self).selected_index == old(self).selected_index && r == Some(
                    ListScroll::PageUp,
                ),
                ListKey::PageDown => final(self).selected_index == old(self).selected_index && r == Some(
                    ListScroll::PageDown,
                ),
                ListKey::Home => if old(self).filtered_indices@.len() > 0 {
                    final(self).selected_index == old(self).filtered_indices@[0] && r == Some(ListScroll::Top)
                } else {
                    final(self).selected_index == old(self).selected_index && r is None
                },
                ListKey::End => if old(self).filtered_indices@.len() > 0 {
                    &&& final(self).selected_index == old(self).filtered_indices@.last()
                    &&& r == Some(ListScroll::Bottom)
                } else {
                    final(self).selected_index == old(self).selected_index && r is None
                },
            },
    {
        match key {
            ListKey::Up => {
                match position_of(&self.filtered_indices, self.selected_index) {
                    Some(p) => {
                        if p > 0 {
                            self.selected_index = self.filtered_indices[p - 1];
                            return Some(ListScroll::ToSelected);
                        }
                        None
                    },
                    None => None,
                }
            },
            ListKey::Down => {
                match position_of(&self.filtered_indices, self.selected_index) {
                    Some(p) => {
                        if p < self.filtered_indices.len() - 1 {
                            self.selected_index = self.filtered_indices[p + 1];
                            return Some(ListScroll::ToSelected);
                        }
                        None
                    },
                    None => None,
                }
            },
            ListKey::PageUp => Some(ListScroll::PageUp),
            ListKey::PageDown => Some(ListScroll::PageDown),
            ListKey::Home => {
                if self.filtered_indices.len() > 0 {
                    self.selected_index = self.filtered_indices[0];
                    Some(ListScroll::Top)
                } else {
                    None
                }
            },
            ListKey::End => {
                let n = self.filtered_indices.len();
                if n > 0 {
                    self.selected_index = self.filtered_indices[n - 1];
                    Some(ListScroll::Bottom)
                } else {
                    None
                }
            },
        }
    }
}

// ---------------------------------------------------------------------------
// What the list keeps
// ---------------------------------------------------------------------------

proof fn lemma_filter_increasing(s: Seq<usize>, pred: spec_fn(usize) -> bool)
    requires
        forall|i: int, j: int| 0 <= i < j < s.len() ==> s[i] < s[j],
    ensures
        forall|i: int, j: int| 0 <= i < j < s.filter(pred).len() ==> s.filter(pred)[i] < s.filter(pred)[j],
    decreases s.len(),
{
    reveal(Seq::filter);
    if s.len() > 0 {
        let rest = s.drop_last();
        lemma_filter_increasing(rest, pred);
        let sub = rest.filter(pred);
        if pred(s.last()) {
            assert forall|k: int| 0 <= k < sub.len() implies sub[k] < s.last() by {
                assert(sub.contains(sub[k]));
                rest.lemma_filter_contains_rev(pred, sub[k]);
                let i = choose|i: int| 0 <= i < rest.len() && rest[i] == sub[k];
                assert(s[i] == rest[i]);
            }
            assert(s.filter(pred) == sub.push(s.last()));
        }
    }
}

/// Every listed position names a font that is shown, and the list keeps the
/// fonts' order with no position twice.
pub proof fn lemma_listed_positions(d: FontSelectorDialog)
    requires
        d.fonts@.len() <= usize::MAX,
    ensures
        forall|k: int|
            0 <= k < d.listed().len() ==> {
                &&& #[trigger] d.listed()[k] < d.fonts@.len()
                &&& entry_shown(
                    d.fonts@[d.listed()[k] as int],
                    d.show_sauce,
                    d.show_ansi,
                    d.show_library,
                    d.show_document,
                    d.filter@,
                )
            },
        forall|i: int, j: int| 0 <= i < j < d.listed().len() ==> d.listed()[i] < d.listed()[j],
{
    let n = d.fonts@.len();
    let all = Seq::new(n, |i: int| i as usize);
    let pred = |i: usize|
        entry_shown(d.fonts@[i as int], d.show_sauce, d.show_ansi, d.show_library, d.show_document, d.filter@);
    assert forall|k: int| 0 <= k < d.listed().len() implies #[trigger] d.listed()[k] < d.fonts@.len() && pred(
        d.listed()[k],
    ) by {
        all.lemma_filter_pred(pred, k);
        assert(all.filter(pred).contains(all.filter(pred)[k]));
        all.lemma_filter_contains_rev(pred, all.filter(pred)[k]);
    }
    assert forall|i: int, j: int| 0 <= i < j < all.len() implies all[i] < all[j] by {}
    lemma_filter_increasing(all, pred);
}

/// Whenever the list is rebuilt and is not empty, the selected font is one
/// of the listed fonts.
pub proof fn lemma_relisted_selection_listed(d: FontSelectorDialog, before: FontSelectorDialog)
    requires
        d.relisted_from(before),
        d.filtered_indices@.len() > 0,
    ensures
        d.filtered_indices@.contains(d.selected_index),
{
    if !d.listed().contains(before.selected_index) {
        assert(d.listed()[0] == d.selected_index);
    }
}


/// What applying the selection gives, by mode: nothing without a selected
/// font; a single font in the single-font modes; in XBin Extended the font
/// goes into the slot being edited, whatever places the font comes from; in
/// Unrestricted mode into the font's own document slot (slot 0 for a font the
/// document does not hold).
pub proof fn lemma_result_slot(d: FontSelectorDialog)
    ensures
        d.selected_index >= d.fonts@.len() ==> spec_result(d) is None,
        d.selected_index < d.fonts@.len() ==> {
            &&& (d.format_mode == FormatMode::LegacyDos || d.format_mode == FormatMode::XBin) ==> spec_result(d)
                == Some(FontSelectorResult::SingleFont(d.selected_index))
            &&& d.format_mode == FormatMode::XBinExtended ==> spec_result(d) == Some(
                FontSelectorResult::FontForSlot { slot: d.active_slot, font: d.selected_index },
            )
            &&& d.format_mode == FormatMode::Unrestricted ==> spec_result(d) == Some(
                FontSelectorResult::FontForSlot {
                    slot: match d.fonts@[d.selected_index as int].source.document_slot {
                        Some(s) => s,
                        None => 0,
                    },
                    font: d.selected_index,
                },
            )
        },
{
}

/// In XBin Extended mode the slot a font goes into does not depend on the
/// font's sources: two dialogs that differ only in their fonts give the same
/// result for the same selection.
pub proof fn lemma_dual_slot_ignores_sources(d: FontSelectorDialog, e: FontSelectorDialog)
    requires
        d.format_mode == FormatMode::XBinExtended,
        e.format_mode == FormatMode::XBinExtended,
        d.active_slot == e.active_slot,
        d.selected_index == e.selected_index,
        d.selected_index < d.fonts@.len(),
        e.selected_index < e.fonts@.len(),
    ensures
        spec_result(d) == spec_result(e),
{
}

} // verus!
