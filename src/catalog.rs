//! The voice catalog: which of the provider's voices are offered, and the
//! display metadata derived for each one from its identifier.

use crate::gender::{decode_gender, decoded_gender, Gender};
use crate::locale::{get_language_display_name, locale_label};
use crate::text::{contains_chars, has_infix, lemma_split_on_nonempty, piece_bounds, split_on};
use vstd::prelude::*;
use vstd::string::*;

verus! {

/// A voice as the provider lists it.
pub struct RawVoice {
    /// The provider's identifier of the voice, such as `en-US-Wavenet-D`.
    pub name: String,
    /// The locales that the voice speaks, first the main one.
    pub language_codes: Vec<String>,
    /// The provider's numeric gender code.
    pub ssml_gender: i32,
}

/// A voice as the catalog offers it for display.
pub struct CatalogVoice {
    pub name: String,
    pub display_name: String,
    pub language_codes: Vec<String>,
    pub language_name: String,
    pub gender: Gender,
    pub technology: String,
    /// Where the voice's preview clip lies on disk; empty when unknown.
    pub preview_path: String,
}

/// What `str::to_lowercase` makes of a string.
pub uninterp spec fn lowercased(s: Seq<char>) -> Seq<char>;

/// What `str::trim` makes of a string.
pub uninterp spec fn trimmed(s: Seq<char>) -> Seq<char>;

/// Relies on `str::to_lowercase`: the result depends on the characters alone.
#[verifier::external_body]
fn to_lower(s: &str) -> (r: String)
    ensures
        r@ == lowercased(s@),
{
    s.to_lowercase()
}

/// Relies on `str::trim`: the result depends on the characters alone.
#[verifier::external_body]
fn trim_whitespace(s: &str) -> (r: String)
    ensures
        r@ == trimmed(s@),
{
    s.trim().to_string()
}

/// A lower-cased identifier names one of the offered technology tiers.
pub open spec fn has_tier_marker(lower: Seq<char>) -> bool {
    ||| has_infix(lower, "neural2"@)
    ||| has_infix(lower, "wavenet"@)
    ||| has_infix(lower, "polyglot"@)
    ||| has_infix(lower, "standard"@)
}

/// A voice identifier is offered in the catalog: case aside, it contains
/// one of the tier names.
pub open spec fn is_listed_name(name: Seq<char>) -> bool {
    has_tier_marker(lowercased(name))
}

/// Whether an identifier, already lower-cased, contains one of the tier
/// names `neural2`, `wavenet`, `polyglot`, `standard`.
pub fn has_tier_marker_in(lowered: &str) -> (r: bool)
    ensures
        r == has_tier_marker(lowered@),
{
    contains_chars(lowered, "neural2") || contains_chars(lowered, "wavenet") || contains_chars(
        lowered,
        "polyglot",
    ) || contains_chars(lowered, "standard")
}

/// Whether the catalog offers the voice with this identifier.
pub fn is_listed(name: &str) -> (r: bool)
    ensures
        r == is_listed_name(name@),
{
    let lowered = to_lower(name);
    has_tier_marker_in(lowered.as_str())
}

/// The technology tier of a voice: the third dash-separated piece of its
/// identifier, or `Standard` when there is none.
pub open spec fn technology_of(name: Seq<char>) -> Seq<char> {
    let parts = split_on(name, '-');
    if parts.len() > 2 {
        parts[2]
    } else {
        "Standard"@
    }
}

/// The technology tier read from a voice identifier.
pub fn technology_tier(name: &str) -> (r: String)
    ensures
        r@ == technology_of(name@),
{
    let bounds = piece_bounds(name, '-');
    if bounds.len() > 2 {
        let (start, end) = bounds[2];
        name.substring_char(start, end).to_owned()
    } else {
        String::from_str("Standard")
    }
}

/// The last dash-separated piece of a voice identifier.
pub open spec fn voice_suffix(name: Seq<char>) -> Seq<char> {
    split_on(name, '-').last()
}

/// The part of a language name before its first parenthesis (all of it when
/// it has none).
pub open spec fn language_stem(language_name: Seq<char>) -> Seq<char> {
    split_on(language_name, '(')[0]
}

/// The display name of a voice: the trimmed stem of its language name, a
/// space, and the last piece of its identifier.
pub open spec fn display_name_of(name: Seq<char>, language_name: Seq<char>) -> Seq<char> {
    trimmed(language_stem(language_name)) + " "@ + voice_suffix(name)
}

/// The part of a language name before its first parenthesis.
pub fn language_stem_of(language_name: &str) -> (r: String)
    ensures
        r@ == language_stem(language_name@),
{
    let bounds = piece_bounds(language_name, '(');
    proof {
        lemma_split_on_nonempty(language_name@, '(');
    }
    let (start, end) = bounds[0];
    language_name.substring_char(start, end).to_owned()
}

/// Joins an already trimmed language stem and the last piece of a voice
/// identifier with a space.
pub fn compose_display_name(stem: &str, name: &str) -> (r: String)
    ensures
        r@ == stem@ + " "@ + voice_suffix(name@),
{
    let bounds = piece_bounds(name, '-');
    proof {
        lemma_split_on_nonempty(name@, '-');
    }
    let (start, end) = bounds[bounds.len() - 1];
    let mut r = stem.to_owned();
    r.append(" ");
    r.append(name.substring_char(start, end));
    r
}

/// The display name of the voice `name` whose language is `language_name`.
pub fn display_name(name: &str, language_name: &str) -> (r: String)
    ensures
        r@ == display_name_of(name@, language_name@),
{
    let stem = language_stem_of(language_name);
    let trimmed_stem = trim_whitespace(stem.as_str());
    compose_display_name(trimmed_stem.as_str(), name)
}

/// The main locale of a voice: the first of its codes, or empty.
pub open spec fn primary_code(codes: Seq<String>) -> Seq<char> {
    if codes.len() > 0 {
        codes[0]@
    } else {
        Seq::empty()
    }
}

/// `entry` is the catalog entry of `raw`, with `preview` as its preview path.
pub open spec fn entry_matches(raw: RawVoice, preview: Seq<char>, entry: CatalogVoice) -> bool {
    let language_name = locale_label(primary_code(raw.language_codes@));
    &&& entry.name@ == raw.name@
    &&& entry.language_codes@ == raw.language_codes@
    &&& entry.language_name@ == language_name
    &&& entry.display_name@ == display_name_of(raw.name@, language_name)
    &&& entry.gender == decoded_gender(raw.ssml_gender)
    &&& entry.technology@ == technology_of(raw.name@)
    &&& entry.preview_path@ == preview
}

fn copy_strings(v: &Vec<String>) -> (r: Vec<String>)
    ensures
        r@ == v@,
{
    let mut r: Vec<String> = Vec::new();
    let mut i: usize = 0;
    while i < v.len()
        invariant
            i <= v@.len(),
            r@ == v@.subrange(0, i as int),
        decreases v@.len() - i,
    {
        r.push(v[i].clone());
        i = i + 1;
        proof {
            assert(r@ =~= v@.subrange(0, i as int));
        }
    }
    proof {
        assert(v@.subrange(0, v@.len() as int) =~= v@);
    }
    r
}

/// The catalog entry of one voice, whatever its identifier; `preview_path`
/// is where its preview clip was found, or empty.
pub fn catalog_entry(raw: &RawVoice, preview_path: String) -> (entry: CatalogVoice)
    ensures
        entry_matches(*raw, preview_path@, entry),
{
    let language_code = if raw.language_codes.len() > 0 {
        raw.language_codes[0].clone()
    } else {
        String::new()
    };
    let language_name = get_language_display_name(language_code.as_str());
    let display_name = display_name(raw.name.as_str(), language_name.as_str());
    CatalogVoice {
        name: raw.name.clone(),
        display_name,
        language_codes: copy_strings(&raw.language_codes),
        language_name,
        gender: decode_gender(raw.ssml_gender),
        technology: technology_tier(raw.name.as_str()),
        preview_path,
    }
}

/// The positions, in order, of the voices that the catalog keeps.
pub open spec fn retained(raws: Seq<RawVoice>) -> Seq<int>
    decreases raws.len(),
{
    if raws.len() == 0 {
        Seq::empty()
    } else {
        let prev = retained(raws.drop_last());
        if is_listed_name(raws.last().name@) {
            prev.push(raws.len() - 1)
        } else {
            prev
        }
    }
}

/// `out` is the catalog of `raws`, where `previews[i]` is the preview path of
/// `raws[i]`: one entry for each kept voice, in the provider's order.
pub open spec fn is_catalog_of(
    raws: Seq<RawVoice>,
    previews: Seq<String>,
    out: Seq<CatalogVoice>,
) -> bool {
    let keep = retained(raws);
    &&& out.len() == keep.len()
    &&& forall|k: int|
        0 <= k < out.len() ==> entry_matches(raws[keep[k]], previews[keep[k]]@, #[trigger] out[k])
}

/// The kept positions are exactly the listed voices, each once, in
/// increasing order.
pub proof fn retained_positions(raws: Seq<RawVoice>)
    ensures
        forall|k: int|
            0 <= k < retained(raws).len() ==> 0 <= #[trigger] retained(raws)[k] < raws.len()
                && is_listed_name(raws[retained(raws)[k]].name@),
        forall|k1: int, k2: int|
            0 <= k1 < k2 < retained(raws).len() ==> #[trigger] retained(raws)[k1]
                < #[trigger] retained(raws)[k2],
        forall|j: int|
            0 <= j < raws.len() && is_listed_name(#[trigger] raws[j].name@) ==> exists|k: int|
                0 <= k < retained(raws).len() && retained(raws)[k] == j,
    decreases raws.len(),
{
    if raws.len() > 0 {
        let init = raws.drop_last();
        retained_positions(init);
        let prev = retained(init);
        assert forall|j: int|
            0 <= j < raws.len() && is_listed_name(#[trigger] raws[j].name@) implies exists|k: int|
                0 <= k < retained(raws).len() && retained(raws)[k] == j by {
            if j < raws.len() - 1 {
                assert(init[j] == raws[j]);
                let k = choose|k: int| 0 <= k < prev.len() && prev[k] == j;
                assert(retained(raws)[k] == j);
            } else {
                assert(retained(raws)[prev.len() as int] == j);
            }
        }
        assert forall|k: int| 0 <= k < retained(raws).len() implies 0 <= #[trigger] retained(
            raws,
        )[k] < raws.len() && is_listed_name(raws[retained(raws)[k]].name@) by {
            if k < prev.len() {
                assert(init[prev[k]] == raws[prev[k]]);
            }
        }
    }
}

/// Builds the catalog from the provider's voice list. `preview_paths[i]` is
/// the preview path found for `raws[i]` (empty when none was). Only voices
/// whose identifier names a technology tier are kept, in the provider's order.
pub fn build_catalog(raws: &Vec<RawVoice>, preview_paths: &Vec<String>) -> (out: Vec<CatalogVoice>)
    requires
        preview_paths@.len() == raws@.len(),
    ensures
        is_catalog_of(raws@, preview_paths@, out@),
        forall|k: int| 0 <= k < out@.len() ==> is_listed_name(#[trigger] out@[k].name@),
        forall|k: int|
            0 <= k < out@.len() ==> (#[trigger] out@[k]).technology@ == technology_of(
                out@[k].name@,
            ),
{
    let mut out: Vec<CatalogVoice> = Vec::new();
    let mut i: usize = 0;
    while i < raws.len()
        invariant
            i <= raws@.len(),
            preview_paths@.len() == raws@.len(),
            is_catalog_of(raws@.subrange(0, i as int), preview_paths@, out@),
        decreases raws@.len() - i,
    {
        let ghost before = raws@.subrange(0, i as int);
        let ghost after = raws@.subrange(0, i + 1);
        proof {
            assert(after.drop_last() =~= before);
            assert(after.last() == raws@[i as int]);
            retained_positions(before);
            assert forall|x: int| 0 <= x < i implies #[trigger] before[x] == raws@[x] && after[x]
                == raws@[x] by {}
        }
        if is_listed(raws[i].name.as_str()) {
            let entry = catalog_entry(&raws[i], preview_paths[i].clone());
            out.push(entry);
        }
        i = i + 1;
        proof {
            let keep = retained(after);
            assert forall|k: int| 0 <= k < out@.len() implies entry_matches(
                after[keep[k]],
                preview_paths@[keep[k]]@,
                #[trigger] out@[k],
            ) by {
                if k < retained(before).len() {
                    assert(keep[k] == retained(before)[k]);
                    assert(before[keep[k]] == after[keep[k]]);
                }
            }
        }
    }
    proof {
        assert(raws@.subrange(0, raws@.len() as int) =~= raws@);
        retained_positions(raws@);
    }
    out
}

/// A voice whose identifier names no technology tier, case aside, never
/// appears in the catalog.
pub proof fn catalog_excludes_unlisted(
    raws: Seq<RawVoice>,
    previews: Seq<String>,
    out: Seq<CatalogVoice>,
    name: Seq<char>,
)
    requires
        is_catalog_of(raws, previews, out),
        !has_tier_marker(lowercased(name)),
    ensures
        forall|k: int| 0 <= k < out.len() ==> (#[trigger] out[k]).name@ != name,
{
    retained_positions(raws);
    assert forall|k: int| 0 <= k < out.len() implies (#[trigger] out[k]).name@ != name by {
        assert(entry_matches(raws[retained(raws)[k]], previews[retained(raws)[k]]@, out[k]));
    }
}

/// Every catalog entry's technology is the third dash-separated piece of
/// its identifier, or `Standard` when the identifier has fewer pieces.
pub proof fn catalog_technology_is_positional(
    raws: Seq<RawVoice>,
    previews: Seq<String>,
    out: Seq<CatalogVoice>,
)
    requires
        is_catalog_of(raws, previews, out),
    ensures
        forall|k: int|
            0 <= k < out.len() ==> (#[trigger] out[k]).technology@ == technology_of(out[k].name@),
{
    assert forall|k: int| 0 <= k < out.len() implies (#[trigger] out[k]).technology@
        == technology_of(out[k].name@) by {
        assert(entry_matches(raws[retained(raws)[k]], previews[retained(raws)[k]]@, out[k]));
    }
}

} // verus!
