//! The match engine: pairs locally enumerated hardware identifiers with
//! catalog entries, falling back to a fixed per-vendor table when no exact
//! `(vid, pid)` match exists, and deduplicating the result by display name.

use vstd::prelude::*;
use vstd::string::StringExecFns;
use crate::models::{DeviceModel, OptionModel, SoftwareOption, SupportedDevice};
use crate::models::{device_models, str_eq};

verus! {

/// One locally enumerated hardware identifier: the 16-bit vendor and product
/// identifiers and, when the enumeration supplied one, the reported product
/// name.
pub struct LocalDevice {
    pub vid: u16,
    pub pid: u16,
    pub product_name: Option<String>,
}

/// Spec-level shape of a `LocalDevice`.
pub struct LocalModel {
    pub vid: u16,
    pub pid: u16,
    pub product_name: Option<Seq<char>>,
}

impl View for LocalDevice {
    type V = LocalModel;

    open spec fn view(&self) -> LocalModel {
        LocalModel {
            vid: self.vid,
            pid: self.pid,
            product_name: self.product_name.deep_view(),
        }
    }
}

/// Whether a vendor identifier has an entry in the fixed fallback table.
pub open spec fn in_fallback_table(vid: u16) -> bool {
    vid == 0x046d || vid == 0x1532
}

/// The locally reported product name, or the placeholder used when the
/// enumeration supplied none.
pub open spec fn product_or_placeholder(product_name: Option<Seq<char>>) -> Seq<char> {
    match product_name {
        Some(p) => p,
        None => "Unknown"@,
    }
}

/// The brand prefix a fallback entry's display name opens with.
pub open spec fn fallback_brand_prefix(vid: u16) -> Seq<char>
    recommends
        in_fallback_table(vid),
{
    if vid == 0x046d {
        "Logitech Device ("@
    } else {
        "Razer Device ("@
    }
}

/// The display name a fallback entry synthesizes: the vendor's brand with the
/// locally reported product name, or a placeholder when none was reported.
pub open spec fn fallback_display_name(vid: u16, product_name: Option<Seq<char>>) -> Seq<char>
    recommends
        in_fallback_table(vid),
{
    fallback_brand_prefix(vid) + product_or_placeholder(product_name) + ")"@
}

/// The single hardcoded software-suite entry the fallback table offers for
/// a vendor it knows.
pub open spec fn fallback_option_model(vid: u16) -> OptionModel
    recommends
        in_fallback_table(vid),
{
    if vid == 0x046d {
        OptionModel {
            name: "Logitech G HUB"@,
            description: "Основной драйвер"@,
            url: "https://download01.logi.com/web/ftp/pub/techsupport/gaming/lghub_installer.exe"@,
            filename: "lghub.exe"@,
        }
    } else {
        OptionModel {
            name: "Razer Synapse"@,
            description: "Main vendor driver"@,
            url: "https://rzr.to/synapse-3-pc-download"@,
            filename: "synapse.exe"@,
        }
    }
}

/// The catalog-like entry the fallback table synthesizes for a local
/// identifier, or `None` when the vendor is not in the table.
pub open spec fn fallback_model(l: LocalModel) -> Option<DeviceModel> {
    if in_fallback_table(l.vid) {
        Some(
            DeviceModel {
                name: fallback_display_name(l.vid, l.product_name),
                vid: l.vid,
                pid: l.pid,
                options: seq![fallback_option_model(l.vid)],
            },
        )
    } else {
        None
    }
}

/// The view of an optional matched device.
pub open spec fn device_view_opt(r: Option<SupportedDevice>) -> Option<DeviceModel> {
    match r {
        Some(d) => Some(d@),
        None => None,
    }
}

/// Builds one synthesized fallback entry from a brand prefix, the local
/// identifier and the vendor's fixed software-suite entry.
fn synthesize_fallback(
    prefix: &str,
    vid: u16,
    pid: u16,
    product_name: Option<&str>,
    option: SoftwareOption,
) -> (d: SupportedDevice)
    ensures
        d@.name == prefix@ + product_or_placeholder(product_name.deep_view()) + ")"@,
        d@.vid == vid,
        d@.pid == pid,
        d@.options == seq![option@],
{
    let dev_name: String = match product_name {
        Some(s) => s.to_owned(),
        None => "Unknown".to_owned(),
    };
    let mut name: String = prefix.to_owned();
    name.append(dev_name.as_str());
    name.append(")");
    let mut options: Vec<SoftwareOption> = Vec::new();
    let ghost option_model = option@;
    options.push(option);
    let d = SupportedDevice { name, vid, pid, options };
    proof {
        assert(d@.options =~= seq![option_model]);
    }
    d
}

/// Synthesizes the fallback entry for a vendor in the fixed fallback table,
/// embedding the locally reported product name (or a placeholder) in the
/// display name; vendors absent from the table produce `None`.
pub fn get_vendor_fallback(vid: u16, pid: u16, product_name: Option<&str>) -> (r: Option<
    SupportedDevice,
>)
    ensures
        device_view_opt(r) == fallback_model(
            LocalModel { vid, pid, product_name: product_name.deep_view() },
        ),
{
    match vid {
        0x046d => Some(
            synthesize_fallback(
                "Logitech Device (",
                vid,
                pid,
                product_name,
                SoftwareOption {
                    name: "Logitech G HUB".to_owned(),
                    description: "Основной драйвер".to_owned(),
                    url:
                        "https://download01.logi.com/web/ftp/pub/techsupport/gaming/lghub_installer.exe".to_owned(),
                    filename: "lghub.exe".to_owned(),
                },
            ),
        ),
        0x1532 => Some(
            synthesize_fallback(
                "Razer Device (",
                vid,
                pid,
                product_name,
                SoftwareOption {
                    name: "Razer Synapse".to_owned(),
                    description: "Main vendor driver".to_owned(),
                    url: "https://rzr.to/synapse-3-pc-download".to_owned(),
                    filename: "synapse.exe".to_owned(),
                },
            ),
        ),
        _ => None,
    }
}

/// Whether a catalog entry is an exact match for a local identifier.
pub open spec fn exact_matches(d: DeviceModel, vid: u16, pid: u16) -> bool {
    d.vid == vid && d.pid == pid
}

/// The first catalog entry, in catalog order, whose `(vid, pid)` equals the
/// local identifier's pair; `None` when no entry matches exactly.
pub open spec fn exact_match_for(catalog: Seq<DeviceModel>, vid: u16, pid: u16) -> Option<
    DeviceModel,
>
    decreases catalog.len(),
{
    if catalog.len() == 0 {
        None
    } else if exact_matches(catalog[0], vid, pid) {
        Some(catalog[0])
    } else {
        exact_match_for(catalog.drop_first(), vid, pid)
    }
}

/// The match for one local identifier: the first exact catalog match if one
/// exists, otherwise the vendor fallback, otherwise nothing.
pub open spec fn match_for(l: LocalModel, catalog: Seq<DeviceModel>) -> Option<DeviceModel> {
    match exact_match_for(catalog, l.vid, l.pid) {
        Some(d) => Some(d),
        None => fallback_model(l),
    }
}

/// Whether some entry of the sequence carries the given display name.
pub open spec fn has_name(devs: Seq<DeviceModel>, name: Seq<char>) -> bool {
    exists|i: int| 0 <= i < devs.len() && devs[i].name == name
}

/// The full match result: local identifiers in enumeration order, each
/// matched by `match_for`, with an entry skipped when its display name is
/// already present in the result.
pub open spec fn match_list(locals: Seq<LocalModel>, catalog: Seq<DeviceModel>) -> Seq<DeviceModel>
    decreases locals.len(),
{
    if locals.len() == 0 {
        Seq::empty()
    } else {
        let prefix = match_list(locals.drop_last(), catalog);
        match match_for(locals.last(), catalog) {
            Some(d) => if has_name(prefix, d.name) {
                prefix
            } else {
                prefix.push(d)
            },
            None => prefix,
        }
    }
}

/// The spec-level view of a vector of local identifiers.
pub open spec fn local_models(locals: Seq<LocalDevice>) -> Seq<LocalModel> {
    locals.map_values(|l: LocalDevice| l@)
}

/// Law: the match result never contains two entries with equal display
/// names, whatever the catalog and the local identifier list.
pub proof fn lemma_match_list_names_distinct(locals: Seq<LocalModel>, catalog: Seq<DeviceModel>)
    ensures
        forall|i: int, j: int|
            0 <= i < j < match_list(locals, catalog).len() ==> match_list(locals, catalog)[i].name
                != match_list(locals, catalog)[j].name,
    decreases locals.len(),
{
    if locals.len() == 0 {
    } else {
        lemma_match_list_names_distinct(locals.drop_last(), catalog);
        let prefix = match_list(locals.drop_last(), catalog);
        let result = match_list(locals, catalog);
        match match_for(locals.last(), catalog) {
            Some(d) => {
                if !has_name(prefix, d.name) {
                    assert forall|i: int, j: int| 0 <= i < j < result.len() implies result[i].name
                        != result[j].name by {
                        if j == result.len() - 1 {
                            assert(result[i] == prefix[i]);
                            assert(result[j] == d);
                        } else {
                            assert(result[i] == prefix[i]);
                            assert(result[j] == prefix[j]);
                        }
                    }
                }
            },
            None => {},
        }
    }
}

/// The first exact catalog match, located by its index: when entry `i`
/// matches and no earlier entry does, the scan selects entry `i`.
pub proof fn lemma_exact_match_for_first(catalog: Seq<DeviceModel>, vid: u16, pid: u16, i: int)
    requires
        0 <= i < catalog.len(),
        exact_matches(catalog[i], vid, pid),
        forall|j: int| 0 <= j < i ==> !exact_matches(catalog[j], vid, pid),
    ensures
        exact_match_for(catalog, vid, pid) == Some(catalog[i]),
    decreases i,
{
    if i > 0 {
        lemma_exact_match_for_first(catalog.drop_first(), vid, pid, i - 1);
    }
}

/// No catalog entry matches exactly: the scan comes back empty.
pub proof fn lemma_exact_match_for_none(catalog: Seq<DeviceModel>, vid: u16, pid: u16)
    requires
        forall|i: int| 0 <= i < catalog.len() ==> !exact_matches(catalog[i], vid, pid),
    ensures
        exact_match_for(catalog, vid, pid) is None,
    decreases catalog.len(),
{
    if catalog.len() > 0 {
        lemma_exact_match_for_none(catalog.drop_first(), vid, pid);
    }
}

/// Law: a local identifier present verbatim in the catalog takes the first
/// such catalog entry, never a fallback, even when its vendor is also in the
/// fallback table.
pub proof fn lemma_exact_match_preferred(l: LocalModel, catalog: Seq<DeviceModel>, i: int)
    requires
        0 <= i < catalog.len(),
        exact_matches(catalog[i], l.vid, l.pid),
        forall|j: int| 0 <= j < i ==> !exact_matches(catalog[j], l.vid, l.pid),
    ensures
        match_for(l, catalog) == Some(catalog[i]),
{
    lemma_exact_match_for_first(catalog, l.vid, l.pid, i);
}

/// Law: a local identifier whose vendor is in the fallback table but whose
/// exact `(vid, pid)` is absent from the catalog yields the synthesized
/// fallback entry with the vendor's fixed option set.
pub proof fn lemma_fallback_match(l: LocalModel, catalog: Seq<DeviceModel>)
    requires
        forall|i: int| 0 <= i < catalog.len() ==> !exact_matches(catalog[i], l.vid, l.pid),
        in_fallback_table(l.vid),
    ensures
        match_for(l, catalog) == Some(
            DeviceModel {
                name: fallback_display_name(l.vid, l.product_name),
                vid: l.vid,
                pid: l.pid,
                options: seq![fallback_option_model(l.vid)],
            },
        ),
{
    lemma_exact_match_for_none(catalog, l.vid, l.pid);
}

/// Law: a local identifier whose vendor is absent from both the catalog and
/// the fallback table produces no match.
pub proof fn lemma_unmatched_vendor_no_match(l: LocalModel, catalog: Seq<DeviceModel>)
    requires
        forall|i: int| 0 <= i < catalog.len() ==> !exact_matches(catalog[i], l.vid, l.pid),
        !in_fallback_table(l.vid),
    ensures
        match_for(l, catalog) is None,
{
    lemma_exact_match_for_none(catalog, l.vid, l.pid);
}

/// Law: a local identifier that produces no match contributes no entry: the
/// result equals the result for the identifier list without it.
pub proof fn lemma_unmatched_local_dropped(
    locals: Seq<LocalModel>,
    catalog: Seq<DeviceModel>,
    k: int,
)
    requires
        0 <= k < locals.len(),
        match_for(locals[k], catalog) is None,
    ensures
        match_list(locals, catalog) == match_list(locals.remove(k), catalog),
    decreases locals.len(),
{
    if k == locals.len() - 1 {
        assert(locals.remove(k) =~= locals.drop_last());
    } else {
        lemma_unmatched_local_dropped(locals.drop_last(), catalog, k);
        assert(locals.remove(k).drop_last() =~= locals.drop_last().remove(k));
        assert(locals.remove(k).last() == locals.last());
    }
}

/// Every match in local-enumeration order, before deduplication: one entry
/// per local identifier that `match_for` matches.
pub open spec fn matches_in_order(locals: Seq<LocalModel>, catalog: Seq<DeviceModel>) -> Seq<
    DeviceModel,
>
    decreases locals.len(),
{
    if locals.len() == 0 {
        Seq::empty()
    } else {
        matches_in_order(locals.drop_last(), catalog) + (match match_for(locals.last(), catalog) {
            Some(d) => seq![d],
            None => Seq::empty(),
        })
    }
}

/// Keeps the first occurrence of each display name, in order.
pub open spec fn dedup_by_name(s: Seq<DeviceModel>) -> Seq<DeviceModel>
    decreases s.len(),
{
    if s.len() == 0 {
        Seq::empty()
    } else {
        let prefix = dedup_by_name(s.drop_last());
        if has_name(prefix, s.last().name) {
            prefix
        } else {
            prefix.push(s.last())
        }
    }
}

/// Law: the match result is exactly the per-identifier matches in
/// local-enumeration order with every later repetition of a display name
/// removed — first-occurrence order after dedup.
pub proof fn lemma_match_list_order(locals: Seq<LocalModel>, catalog: Seq<DeviceModel>)
    ensures
        match_list(locals, catalog) == dedup_by_name(matches_in_order(locals, catalog)),
    decreases locals.len(),
{
    if locals.len() == 0 {
    } else {
        lemma_match_list_order(locals.drop_last(), catalog);
        let mio = matches_in_order(locals, catalog);
        match match_for(locals.last(), catalog) {
            Some(d) => {
                assert(mio.drop_last() =~= matches_in_order(locals.drop_last(), catalog));
                assert(mio.last() == d);
            },
            None => {
                assert(mio =~= matches_in_order(locals.drop_last(), catalog));
            },
        }
    }
}

/// Walks the catalog in order and returns the first entry whose `(vid, pid)`
/// equals the given pair.
fn find_exact<'a>(catalog: &'a Vec<SupportedDevice>, vid: u16, pid: u16) -> (r: Option<
    &'a SupportedDevice,
>)
    ensures
        match r {
            Some(d) => Some(d@) == exact_match_for(device_models(catalog@), vid, pid),
            None => exact_match_for(device_models(catalog@), vid, pid) is None,
        },
{
    let ghost models = device_models(catalog@);
    proof {
        assert(models.skip(0) =~= models);
    }
    let mut i: usize = 0;
    while i < catalog.len()
        invariant
            i <= catalog.len(),
            models == device_models(catalog@),
            models.len() == catalog.len(),
            exact_match_for(models, vid, pid) == exact_match_for(models.skip(i as int), vid, pid),
        decreases catalog.len() - i,
    {
        if catalog[i].vid == vid && catalog[i].pid == pid {
            proof {
                assert(models.skip(i as int)[0] == models[i as int]);
            }
            return Some(&catalog[i]);
        }
        proof {
            assert(models.skip(i as int)[0] == models[i as int]);
            assert(models.skip(i as int).drop_first() =~= models.skip(i as int + 1));
        }
        i = i + 1;
    }
    proof {
        assert(models.skip(i as int).len() == 0);
    }
    None
}

/// Whether some already collected device carries the given display name.
fn contains_name(found: &Vec<SupportedDevice>, name: &String) -> (r: bool)
    ensures
        r == has_name(device_models(found@), name@),
{
    let mut i: usize = 0;
    while i < found.len()
        invariant
            i <= found.len(),
            forall|j: int| 0 <= j < i ==> device_models(found@)[j].name != name@,
        decreases found.len() - i,
    {
        if str_eq(found[i].name.as_str(), name.as_str()) {
            proof {
                assert(device_models(found@)[i as int].name == name@);
            }
            return true;
        }
        i = i + 1;
    }
    false
}

/// Matches every locally enumerated identifier against the catalog, in
/// enumeration order: first exact `(vid, pid)` match in catalog order, then
/// the fixed vendor fallback table, with entries whose display name is
/// already in the result skipped.
pub fn match_devices(locals: &Vec<LocalDevice>, catalog: &Vec<SupportedDevice>) -> (found: Vec<
    SupportedDevice,
>)
    ensures
        device_models(found@) == match_list(local_models(locals@), device_models(catalog@)),
{
    let ghost lmodels = local_models(locals@);
    let ghost cmodels = device_models(catalog@);
    let mut found: Vec<SupportedDevice> = Vec::new();
    let mut k: usize = 0;
    while k < locals.len()
        invariant
            k <= locals.len(),
            lmodels == local_models(locals@),
            cmodels == device_models(catalog@),
            lmodels.len() == locals.len(),
            device_models(found@) == match_list(lmodels.take(k as int), cmodels),
        decreases locals.len() - k,
    {
        let local = &locals[k];
        proof {
            assert(lmodels.take(k as int + 1).drop_last() =~= lmodels.take(k as int));
            assert(lmodels.take(k as int + 1).last() == lmodels[k as int]);
        }
        let matched: Option<SupportedDevice> = match find_exact(catalog, local.vid, local.pid) {
            Some(supported) => Some(supported.clone()),
            None => {
                get_vendor_fallback(
                    local.vid,
                    local.pid,
                    match &local.product_name {
                        Some(s) => Some(s.as_str()),
                        None => None,
                    },
                )
            },
        };
        proof {
            assert(device_view_opt(matched) == match_for(lmodels[k as int], cmodels));
        }
        match matched {
            Some(d) => {
                if !contains_name(&found, &d.name) {
                    let ghost before = device_models(found@);
                    found.push(d);
                    proof {
                        assert(device_models(found@) =~= before.push(d@));
                    }
                }
            },
            None => {},
        }
        k = k + 1;
    }
    proof {
        assert(lmodels.take(locals.len() as int) =~= lmodels);
    }
    found
}

} // verus!
