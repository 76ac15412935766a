//! Hardware descriptions assembled from what platform probes report:
//! `system_profiler`/`sysctl` output on macOS, `dmidecode` output and DMI
//! files on Linux, `wmic` output on Windows.

use vstd::prelude::*;
use crate::text::{
    has_prefix, is_trimmed, lemma_trim_idempotent, lemma_trimmed_is_fixed, lines, lines_of, opt_str_view, opt_view, same_text, second_field, second_field_of,
    starts_with, trim, trim_str, views,
};

verus! {

/// Who made a machine and which model it is.
#[derive(Debug)]
pub struct HardwareModel {
    pub manufacturer: String,
    pub model: String,
    pub model_number: String,
}

/// The character view of a [`HardwareModel`].
pub struct HardwareModelView {
    pub manufacturer: Seq<char>,
    pub model: Seq<char>,
    pub model_number: Seq<char>,
}

impl View for HardwareModel {
    type V = HardwareModelView;

    open spec fn view(&self) -> HardwareModelView {
        HardwareModelView {
            manufacturer: self.manufacturer@,
            model: self.model@,
            model_number: self.model_number@,
        }
    }
}

/// Hardware information that does not change while the process runs.
#[derive(Debug, Clone)]
pub struct HardwareInfo {
    pub id: Option<String>,
    pub manufacturer: String,
    pub model: String,
    pub model_number: String,
}

/// The character view of a [`HardwareInfo`].
pub struct HardwareInfoView {
    pub id: Option<Seq<char>>,
    pub manufacturer: Seq<char>,
    pub model: Seq<char>,
    pub model_number: Seq<char>,
}

impl View for HardwareInfo {
    type V = HardwareInfoView;

    open spec fn view(&self) -> HardwareInfoView {
        HardwareInfoView {
            id: opt_view(self.id),
            manufacturer: self.manufacturer@,
            model: self.model@,
            model_number: self.model_number@,
        }
    }
}

/// What the probes of one platform reported. A `None` stands for a probe
/// that failed or whose output was not UTF-8.
#[derive(Debug)]
pub enum PlatformProbe {
    /// Output of `system_profiler SPHardwareDataType` and of `sysctl -n hw.model`.
    MacOs { profiler: Option<String>, sysctl: Option<String> },
    /// Output of `dmidecode -s` for the system manufacturer, product name and
    /// version, and the contents of the DMI files `sys_vendor`,
    /// `product_name` and `product_version`.
    Linux {
        dmi_manufacturer: Option<String>,
        dmi_product: Option<String>,
        dmi_version: Option<String>,
        sys_vendor: Option<String>,
        product_name: Option<String>,
        product_version: Option<String>,
    },
    /// Output of `wmic computersystem get` for the manufacturer, the model
    /// and the system SKU number.
    Windows { manufacturer: Option<String>, model: Option<String>, sku: Option<String> },
    /// A platform without probes.
    Other,
}

/// The character view of a [`PlatformProbe`].
pub enum PlatformProbeView {
    MacOs { profiler: Option<Seq<char>>, sysctl: Option<Seq<char>> },
    Linux {
        dmi_manufacturer: Option<Seq<char>>,
        dmi_product: Option<Seq<char>>,
        dmi_version: Option<Seq<char>>,
        sys_vendor: Option<Seq<char>>,
        product_name: Option<Seq<char>>,
        product_version: Option<Seq<char>>,
    },
    Windows {
        manufacturer: Option<Seq<char>>,
        model: Option<Seq<char>>,
        sku: Option<Seq<char>>,
    },
    Other,
}

impl View for PlatformProbe {
    type V = PlatformProbeView;

    open spec fn view(&self) -> PlatformProbeView {
        match self {
            PlatformProbe::MacOs { profiler, sysctl } => PlatformProbeView::MacOs {
                profiler: opt_view(*profiler),
                sysctl: opt_view(*sysctl),
            },
            PlatformProbe::Linux {
                dmi_manufacturer,
                dmi_product,
                dmi_version,
                sys_vendor,
                product_name,
                product_version,
            } => PlatformProbeView::Linux {
                dmi_manufacturer: opt_view(*dmi_manufacturer),
                dmi_product: opt_view(*dmi_product),
                dmi_version: opt_view(*dmi_version),
                sys_vendor: opt_view(*sys_vendor),
                product_name: opt_view(*product_name),
                product_version: opt_view(*product_version),
            },
            PlatformProbe::Windows { manufacturer, model, sku } => PlatformProbeView::Windows {
                manufacturer: opt_view(*manufacturer),
                model: opt_view(*model),
                sku: opt_view(*sku),
            },
            PlatformProbe::Other => PlatformProbeView::Other,
        }
    }
}

/// The value that stands for a piece of information nobody reported.
pub open spec fn unknown() -> Seq<char> {
    "Unknown"@
}

/// The placeholder that firmware vendors leave in DMI fields they did not fill.
pub open spec fn oem_placeholder() -> Seq<char> {
    "To Be Filled By O.E.M."@
}

/// A model with all three parts unknown.
pub open spec fn unknown_model() -> HardwareModelView {
    HardwareModelView { manufacturer: unknown(), model: unknown(), model_number: unknown() }
}

/// The value of the last line of `ls` that, trimmed, starts with `key`: the
/// trimmed text after its first `:` and before the next one.
pub open spec fn profiler_value(ls: Seq<Seq<char>>, key: Seq<char>) -> Option<Seq<char>>
    decreases ls.len(),
{
    if ls.len() == 0 {
        None
    } else if has_prefix(trim(ls.last()), key) {
        Some(trim(second_field(trim(ls.last()), ':')))
    } else {
        profiler_value(ls.drop_last(), key)
    }
}

/// The model that `system_profiler` output describes: the machine is an
/// Apple one when both the model name and the model identifier are there
/// and not empty.
pub open spec fn profiler_hardware(output: Seq<char>) -> Option<HardwareModelView> {
    let name = profiler_value(lines(output), "Model Name:"@);
    let ident = profiler_value(lines(output), "Model Identifier:"@);
    if name is Some && ident is Some && name->0.len() > 0 && ident->0.len() > 0 {
        Some(HardwareModelView { manufacturer: "Apple"@, model: name->0, model_number: ident->0 })
    } else {
        None
    }
}

/// The model that `sysctl -n hw.model` output describes: an Apple Mac with
/// that model identifier, when the trimmed output is not empty.
pub open spec fn sysctl_hardware(output: Seq<char>) -> Option<HardwareModelView> {
    if trim(output).len() > 0 {
        Some(HardwareModelView { manufacturer: "Apple"@, model: "Mac"@, model_number: trim(output) })
    } else {
        None
    }
}

/// The macOS model: from `system_profiler` when it tells enough, otherwise
/// from `sysctl`.
pub open spec fn macos_hardware(profiler: Option<Seq<char>>, sysctl: Option<Seq<char>>) -> Option<
    HardwareModelView,
> {
    if profiler is Some && profiler_hardware(profiler->0) is Some {
        profiler_hardware(profiler->0)
    } else if sysctl is Some {
        sysctl_hardware(sysctl->0)
    } else {
        None
    }
}

/// A DMI value, trimmed, with the vendor placeholder and a missing value
/// read as empty.
pub open spec fn dmi_text(raw: Option<Seq<char>>) -> Seq<char> {
    match raw {
        Some(r) => if trim(r) == oem_placeholder() {
            Seq::<char>::empty()
        } else {
            trim(r)
        },
        None => Seq::<char>::empty(),
    }
}

/// The `dmidecode` value, or the DMI file's when the former is empty.
pub open spec fn dmi_field(primary: Option<Seq<char>>, fallback: Option<Seq<char>>) -> Seq<char> {
    if dmi_text(primary).len() > 0 {
        dmi_text(primary)
    } else {
        dmi_text(fallback)
    }
}

/// `v`, or "Unknown" when it is empty.
pub open spec fn or_unknown(v: Seq<char>) -> Seq<char> {
    if v.len() == 0 {
        unknown()
    } else {
        v
    }
}

/// A model from three found parts, when at least one was found; the
/// missing ones read "Unknown".
pub open spec fn found_hardware(
    manufacturer: Seq<char>,
    model: Seq<char>,
    model_number: Seq<char>,
) -> Option<HardwareModelView> {
    if manufacturer.len() > 0 || model.len() > 0 || model_number.len() > 0 {
        Some(
            HardwareModelView {
                manufacturer: or_unknown(manufacturer),
                model: or_unknown(model),
                model_number: or_unknown(model_number),
            },
        )
    } else {
        None
    }
}

/// The value of the first line of `ls` that starts with `key`: the trimmed
/// text after its first `=` and before the next one.
pub open spec fn keyed_value(ls: Seq<Seq<char>>, key: Seq<char>) -> Option<Seq<char>>
    decreases ls.len(),
{
    if ls.len() == 0 {
        None
    } else if keyed_value(ls.drop_last(), key) is Some {
        keyed_value(ls.drop_last(), key)
    } else if has_prefix(ls.last(), key) {
        Some(trim(second_field(ls.last(), '=')))
    } else {
        None
    }
}

/// The value that `wmic ... /value` output gives for `key`, empty when the
/// probe failed or no line holds the key.
pub open spec fn wmic_value(output: Option<Seq<char>>, key: Seq<char>) -> Seq<char> {
    match output {
        Some(o) => match keyed_value(lines(o), key) {
            Some(v) => v,
            None => Seq::<char>::empty(),
        },
        None => Seq::<char>::empty(),
    }
}

/// The model that the probes of one platform describe, if they describe one.
pub open spec fn probed_model(probe: PlatformProbeView) -> Option<HardwareModelView> {
    match probe {
        PlatformProbeView::MacOs { profiler, sysctl } => macos_hardware(profiler, sysctl),
        PlatformProbeView::Linux {
            dmi_manufacturer,
            dmi_product,
            dmi_version,
            sys_vendor,
            product_name,
            product_version,
        } => found_hardware(
            dmi_field(dmi_manufacturer, sys_vendor),
            dmi_field(dmi_product, product_name),
            dmi_field(dmi_version, product_version),
        ),
        PlatformProbeView::Windows { manufacturer, model, sku } => found_hardware(
            wmic_value(manufacturer, "Manufacturer="@),
            wmic_value(model, "Model="@),
            wmic_value(sku, "SystemSKUNumber="@),
        ),
        PlatformProbeView::Other => None,
    }
}

/// The hardware information for `probe` and a machine identifier: the probed
/// model, or an unknown one.
pub open spec fn hardware_info_of(probe: PlatformProbeView, id: Option<Seq<char>>) -> HardwareInfoView {
    let m = match probed_model(probe) {
        Some(m) => m,
        None => unknown_model(),
    };
    HardwareInfoView {
        id: id,
        manufacturer: m.manufacturer,
        model: m.model,
        model_number: m.model_number,
    }
}

fn last_profiler_value<'a>(ls: &Vec<&'a str>, key: &str) -> (r: Option<&'a str>)
    ensures
        opt_str_view(r) == profiler_value(views(ls@), key@),
{
    let mut found: Option<&'a str> = None;
    let mut i: usize = 0;
    proof {
        assert(views(ls@).take(0) =~= Seq::<Seq<char>>::empty());
    }
    while i < ls.len()
        invariant
            i <= ls@.len(),
            opt_str_view(found) == profiler_value(views(ls@).take(i as int), key@),
        decreases ls@.len() - i,
    {
        let line = trim_str(ls[i]);
        if starts_with(line, key) {
            found = Some(trim_str(second_field_of(line, ':')));
        }
        proof {
            let t = views(ls@).take(i + 1);
            assert(t.drop_last() =~= views(ls@).take(i as int));
            assert(t.last() == ls@[i as int]@);
        }
        i = i + 1;
    }
    proof {
        assert(views(ls@).take(ls@.len() as int) =~= views(ls@));
    }
    found
}

fn first_keyed_value<'a>(ls: &Vec<&'a str>, key: &str) -> (r: Option<&'a str>)
    ensures
        opt_str_view(r) == keyed_value(views(ls@), key@),
{
    let mut found: Option<&'a str> = None;
    let mut i: usize = 0;
    proof {
        assert(views(ls@).take(0) =~= Seq::<Seq<char>>::empty());
    }
    while i < ls.len()
        invariant
            i <= ls@.len(),
            opt_str_view(found) == keyed_value(views(ls@).take(i as int), key@),
        decreases ls@.len() - i,
    {
        if found.is_none() && starts_with(ls[i], key) {
            found = Some(trim_str(second_field_of(ls[i], '=')));
        }
        proof {
            let t = views(ls@).take(i + 1);
            assert(t.drop_last() =~= views(ls@).take(i as int));
            assert(t.last() == ls@[i as int]@);
        }
        i = i + 1;
    }
    proof {
        assert(views(ls@).take(ls@.len() as int) =~= views(ls@));
    }
    found
}

proof fn lemma_lines_views(s: Seq<char>, v: Seq<&str>)
    requires
        v.len() == lines(s).len(),
        forall|k: int| 0 <= k < v.len() ==> #[trigger] v[k]@ == lines(s)[k],
    ensures
        views(v) == lines(s),
{
    assert(views(v) =~= lines(s));
}

/// The model that `system_profiler SPHardwareDataType` output describes.
pub fn hardware_from_profiler(output: &str) -> (r: Option<HardwareModel>)
    ensures
        match r {
            Some(m) => profiler_hardware(output@) == Some(m@),
            None => profiler_hardware(output@) is None,
        },
{
    let ls = lines_of(output);
    proof {
        lemma_lines_views(output@, ls@);
    }
    let name = last_profiler_value(&ls, "Model Name:");
    let ident = last_profiler_value(&ls, "Model Identifier:");
    match (name, ident) {
        (Some(n), Some(i)) => {
            if n.unicode_len() > 0 && i.unicode_len() > 0 {
                Some(
                    HardwareModel {
                        manufacturer: "Apple".to_owned(),
                        model: n.to_owned(),
                        model_number: i.to_owned(),
                    },
                )
            } else {
                None
            }
        },
        _ => None,
    }
}

/// The model that `sysctl -n hw.model` output describes.
pub fn hardware_from_sysctl(output: &str) -> (r: Option<HardwareModel>)
    ensures
        match r {
            Some(m) => sysctl_hardware(output@) == Some(m@),
            None => sysctl_hardware(output@) is None,
        },
{
    let ident = trim_str(output);
    if ident.unicode_len() > 0 {
        Some(
            HardwareModel {
                manufacturer: "Apple".to_owned(),
                model: "Mac".to_owned(),
                model_number: ident.to_owned(),
            },
        )
    } else {
        None
    }
}

/// A DMI value with surrounding whitespace and the vendor placeholder removed.
pub fn dmi_text_of<'a>(raw: &Option<String>) -> (r: String)
    ensures
        r@ == dmi_text(opt_view(*raw)),
{
    match raw {
        Some(s) => {
            let t = trim_str(s.as_str());
            if same_text(t, "To Be Filled By O.E.M.") {
                String::new()
            } else {
                t.to_owned()
            }
        },
        None => String::new(),
    }
}

fn dmi_field_of(primary: &Option<String>, fallback: &Option<String>) -> (r: String)
    ensures
        r@ == dmi_field(opt_view(*primary), opt_view(*fallback)),
{
    let p = dmi_text_of(primary);
    if p.as_str().unicode_len() > 0 {
        p
    } else {
        dmi_text_of(fallback)
    }
}

fn or_unknown_of(v: String) -> (r: String)
    ensures
        r@ == or_unknown(v@),
{
    if v.as_str().unicode_len() == 0 {
        "Unknown".to_owned()
    } else {
        v
    }
}

/// A model from three found parts, when at least one is not empty.
pub fn found_hardware_of(manufacturer: String, model: String, model_number: String) -> (r: Option<
    HardwareModel,
>)
    ensures
        match r {
            Some(m) => found_hardware(manufacturer@, model@, model_number@) == Some(m@),
            None => found_hardware(manufacturer@, model@, model_number@) is None,
        },
{
    if manufacturer.as_str().unicode_len() > 0 || model.as_str().unicode_len() > 0
        || model_number.as_str().unicode_len() > 0 {
        Some(
            HardwareModel {
                manufacturer: or_unknown_of(manufacturer),
                model: or_unknown_of(model),
                model_number: or_unknown_of(model_number),
            },
        )
    } else {
        None
    }
}

/// The value that `wmic ... /value` output gives for `key`.
pub fn wmic_value_of(output: &Option<String>, key: &str) -> (r: String)
    ensures
        r@ == wmic_value(opt_view(*output), key@),
{
    match output {
        Some(o) => {
            let ls = lines_of(o.as_str());
            proof {
                lemma_lines_views(o@, ls@);
            }
            match first_keyed_value(&ls, key) {
                Some(v) => v.to_owned(),
                None => String::new(),
            }
        },
        None => String::new(),
    }
}

/// The model that the probes of one platform describe, if they describe one.
pub fn probed_model_of(probe: &PlatformProbe) -> (r: Option<HardwareModel>)
    ensures
        match r {
            Some(m) => probed_model(probe@) == Some(m@),
            None => probed_model(probe@) is None,
        },
{
    match probe {
        PlatformProbe::MacOs { profiler, sysctl } => {
            let from_profiler = match profiler {
                Some(p) => hardware_from_profiler(p.as_str()),
                None => None,
            };
            match from_profiler {
                Some(m) => Some(m),
                None => match sysctl {
                    Some(s) => hardware_from_sysctl(s.as_str()),
                    None => None,
                },
            }
        },
        PlatformProbe::Linux {
            dmi_manufacturer,
            dmi_product,
            dmi_version,
            sys_vendor,
            product_name,
            product_version,
        } => found_hardware_of(
            dmi_field_of(dmi_manufacturer, sys_vendor),
            dmi_field_of(dmi_product, product_name),
            dmi_field_of(dmi_version, product_version),
        ),
        PlatformProbe::Windows { manufacturer, model, sku } => found_hardware_of(
            wmic_value_of(manufacturer, "Manufacturer="),
            wmic_value_of(model, "Model="),
            wmic_value_of(sku, "SystemSKUNumber="),
        ),
        PlatformProbe::Other => None,
    }
}

impl HardwareInfo {
    /// The hardware information for what the platform probes reported and a
    /// machine identifier; an unknown model when the probes tell nothing.
    pub fn from_probe(probe: &PlatformProbe, id: Option<String>) -> (r: HardwareInfo)
        ensures
            r@ == hardware_info_of(probe@, opt_view(id)),
    {
        match probed_model_of(probe) {
            Some(m) => HardwareInfo {
                id,
                manufacturer: m.manufacturer,
                model: m.model,
                model_number: m.model_number,
            },
            None => HardwareInfo {
                id,
                manufacturer: "Unknown".to_owned(),
                model: "Unknown".to_owned(),
                model_number: "Unknown".to_owned(),
            },
        }
    }
}


/// Every part of the hardware information is non-empty, whatever the probes
/// reported: a part that nobody reported reads "Unknown".
pub proof fn lemma_hardware_parts_never_empty(probe: PlatformProbeView, id: Option<Seq<char>>)
    ensures
        hardware_info_of(probe, id).manufacturer.len() > 0,
        hardware_info_of(probe, id).model.len() > 0,
        hardware_info_of(probe, id).model_number.len() > 0,
        hardware_info_of(probe, id).id == id,
{
    reveal_strlit("Unknown");
    reveal_strlit("Apple");
    reveal_strlit("Mac");
}

/// On Linux no part of the hardware information is the vendor placeholder
/// "To Be Filled By O.E.M.": such a DMI value counts as missing.
pub proof fn lemma_linux_hardware_skips_placeholder(probe: PlatformProbeView, id: Option<Seq<char>>)
    requires
        probe is Linux,
    ensures
        hardware_info_of(probe, id).manufacturer != oem_placeholder(),
        hardware_info_of(probe, id).model != oem_placeholder(),
        hardware_info_of(probe, id).model_number != oem_placeholder(),
{
    reveal_strlit("Unknown");
    reveal_strlit("To Be Filled By O.E.M.");
    assert(unknown().len() != oem_placeholder().len());
}


proof fn lemma_profiler_value_trimmed(ls: Seq<Seq<char>>, key: Seq<char>)
    ensures
        profiler_value(ls, key) matches Some(v) ==> trim(v) == v,
    decreases ls.len(),
{
    if ls.len() > 0 {
        lemma_trim_idempotent(second_field(trim(ls.last()), ':'));
        lemma_profiler_value_trimmed(ls.drop_last(), key);
    }
}

proof fn lemma_keyed_value_trimmed(ls: Seq<Seq<char>>, key: Seq<char>)
    ensures
        keyed_value(ls, key) matches Some(v) ==> trim(v) == v,
    decreases ls.len(),
{
    if ls.len() > 0 {
        lemma_trim_idempotent(second_field(ls.last(), '='));
        lemma_keyed_value_trimmed(ls.drop_last(), key);
    }
}

proof fn lemma_literals_trimmed()
    ensures
        trim(unknown()) == unknown(),
        trim("Apple"@) == "Apple"@,
        trim("Mac"@) == "Mac"@,
{
    reveal_strlit("Unknown");
    reveal_strlit("Apple");
    reveal_strlit("Mac");
    assert(is_trimmed(unknown()));
    assert(is_trimmed("Apple"@));
    assert(is_trimmed("Mac"@));
    lemma_trimmed_is_fixed(unknown());
    lemma_trimmed_is_fixed("Apple"@);
    lemma_trimmed_is_fixed("Mac"@);
}

proof fn lemma_dmi_text_trimmed(raw: Option<Seq<char>>)
    ensures
        trim(dmi_text(raw)) == dmi_text(raw),
{
    assert(trim(Seq::<char>::empty()) =~= Seq::<char>::empty());
    if let Some(r) = raw {
        lemma_trim_idempotent(r);
    }
}

proof fn lemma_wmic_value_trimmed(output: Option<Seq<char>>, key: Seq<char>)
    ensures
        trim(wmic_value(output, key)) == wmic_value(output, key),
{
    assert(trim(Seq::<char>::empty()) =~= Seq::<char>::empty());
    if let Some(o) = output {
        lemma_keyed_value_trimmed(lines(o), key);
    }
}

/// No part of the hardware information has surrounding whitespace, whatever
/// the probes reported: every part equals its own trim.
pub proof fn lemma_hardware_parts_trimmed(probe: PlatformProbeView, id: Option<Seq<char>>)
    ensures
        trim(hardware_info_of(probe, id).manufacturer) == hardware_info_of(probe, id).manufacturer,
        trim(hardware_info_of(probe, id).model) == hardware_info_of(probe, id).model,
        trim(hardware_info_of(probe, id).model_number) == hardware_info_of(probe, id).model_number,
{
    lemma_literals_trimmed();
    match probe {
        PlatformProbeView::MacOs { profiler, sysctl } => {
            if let Some(p) = profiler {
                lemma_profiler_value_trimmed(lines(p), "Model Name:"@);
                lemma_profiler_value_trimmed(lines(p), "Model Identifier:"@);
            }
            if let Some(c) = sysctl {
                lemma_trim_idempotent(c);
            }
        },
        PlatformProbeView::Linux {
            dmi_manufacturer,
            dmi_product,
            dmi_version,
            sys_vendor,
            product_name,
            product_version,
        } => {
            lemma_dmi_text_trimmed(dmi_manufacturer);
            lemma_dmi_text_trimmed(dmi_product);
            lemma_dmi_text_trimmed(dmi_version);
            lemma_dmi_text_trimmed(sys_vendor);
            lemma_dmi_text_trimmed(product_name);
            lemma_dmi_text_trimmed(product_version);
        },
        PlatformProbeView::Windows { manufacturer, model, sku } => {
            lemma_wmic_value_trimmed(manufacturer, "Manufacturer="@);
            lemma_wmic_value_trimmed(model, "Model="@);
            lemma_wmic_value_trimmed(sku, "SystemSKUNumber="@);
        },
        PlatformProbeView::Other => {},
    }
}


/// Whether a DMI reading holds a value: present, not blank once trimmed,
/// and not the vendor placeholder.
pub open spec fn dmi_holds_value(raw: Option<Seq<char>>) -> bool {
    raw is Some && trim(raw->0).len() > 0 && trim(raw->0) != oem_placeholder()
}

/// One part of the Linux hardware information: the trimmed `dmidecode`
/// value when it holds one; otherwise the trimmed value of the DMI file when
/// that holds one; otherwise "Unknown".
pub open spec fn linux_part_law(part: Seq<char>, dmi: Option<Seq<char>>, file: Option<Seq<char>>) -> bool {
    &&& dmi_holds_value(dmi) ==> part == trim(dmi->0)
    &&& !dmi_holds_value(dmi) && dmi_holds_value(file) ==> part == trim(file->0)
    &&& !dmi_holds_value(dmi) && !dmi_holds_value(file) ==> part == unknown()
}

/// On Linux each of manufacturer, model and model number is taken from its
/// `dmidecode` reading when that holds a value, else from its DMI file
/// (`sys_vendor`, `product_name`, `product_version`) when that holds one,
/// else it is "Unknown"; each part is decided by its own two readings alone.
pub proof fn lemma_linux_parts_from_dmidecode_then_files(
    dmi_manufacturer: Option<Seq<char>>,
    dmi_product: Option<Seq<char>>,
    dmi_version: Option<Seq<char>>,
    sys_vendor: Option<Seq<char>>,
    product_name: Option<Seq<char>>,
    product_version: Option<Seq<char>>,
    id: Option<Seq<char>>,
)
    ensures
        ({
            let h = hardware_info_of(
                PlatformProbeView::Linux {
                    dmi_manufacturer,
                    dmi_product,
                    dmi_version,
                    sys_vendor,
                    product_name,
                    product_version,
                },
                id,
            );
            &&& linux_part_law(h.manufacturer, dmi_manufacturer, sys_vendor)
            &&& linux_part_law(h.model, dmi_product, product_name)
            &&& linux_part_law(h.model_number, dmi_version, product_version)
            &&& h.id == id
        }),
{
}


proof fn lemma_keyed_value_absent(ls: Seq<Seq<char>>, key: Seq<char>)
    requires
        forall|j: int| 0 <= j < ls.len() ==> !#[trigger] has_prefix(ls[j], key),
    ensures
        keyed_value(ls, key) is None,
    decreases ls.len(),
{
    if ls.len() > 0 {
        let d = ls.drop_last();
        assert forall|j: int| 0 <= j < d.len() implies !#[trigger] has_prefix(d[j], key) by {
            assert(d[j] == ls[j]);
            assert(!has_prefix(ls[j], key));
        }
        lemma_keyed_value_absent(d, key);
        assert(!has_prefix(ls[ls.len() - 1], key));
    }
}

proof fn lemma_keyed_value_first(ls: Seq<Seq<char>>, key: Seq<char>, k: int)
    requires
        0 <= k < ls.len(),
        has_prefix(ls[k], key),
        forall|j: int| 0 <= j < k ==> !#[trigger] has_prefix(ls[j], key),
    ensures
        keyed_value(ls, key) == Some(trim(second_field(ls[k], '='))),
    decreases ls.len(),
{
    let d = ls.drop_last();
    if k == ls.len() - 1 {
        assert forall|j: int| 0 <= j < d.len() implies !#[trigger] has_prefix(d[j], key) by {
            assert(d[j] == ls[j]);
            assert(!has_prefix(ls[j], key));
        }
        lemma_keyed_value_absent(d, key);
    } else {
        assert(d[k] == ls[k]);
        assert forall|j: int| 0 <= j < k implies !#[trigger] has_prefix(d[j], key) by {
            assert(d[j] == ls[j]);
            assert(!has_prefix(ls[j], key));
        }
        lemma_keyed_value_first(d, key, k);
    }
}

proof fn lemma_profiler_value_absent(ls: Seq<Seq<char>>, key: Seq<char>)
    requires
        forall|j: int| 0 <= j < ls.len() ==> !#[trigger] has_prefix(trim(ls[j]), key),
    ensures
        profiler_value(ls, key) is None,
    decreases ls.len(),
{
    if ls.len() > 0 {
        let d = ls.drop_last();
        assert forall|j: int| 0 <= j < d.len() implies !#[trigger] has_prefix(trim(d[j]), key) by {
            assert(d[j] == ls[j]);
            assert(!has_prefix(trim(ls[j]), key));
        }
        assert(!has_prefix(trim(ls[ls.len() - 1]), key));
        lemma_profiler_value_absent(d, key);
    }
}

proof fn lemma_profiler_value_last(ls: Seq<Seq<char>>, key: Seq<char>, k: int)
    requires
        0 <= k < ls.len(),
        has_prefix(trim(ls[k]), key),
        forall|j: int| k < j < ls.len() ==> !#[trigger] has_prefix(trim(ls[j]), key),
    ensures
        profiler_value(ls, key) == Some(trim(second_field(trim(ls[k]), ':'))),
    decreases ls.len(),
{
    if k < ls.len() - 1 {
        let d = ls.drop_last();
        assert(!has_prefix(trim(ls[ls.len() - 1]), key));
        assert(d[k] == ls[k]);
        assert forall|j: int| k < j < d.len() implies !#[trigger] has_prefix(trim(d[j]), key) by {
            assert(d[j] == ls[j]);
            assert(!has_prefix(trim(ls[j]), key));
        }
        lemma_profiler_value_last(d, key, k);
    }
}

/// Whether line `k` of `ls` is the first that starts with `key`.
pub open spec fn is_first_line_with(ls: Seq<Seq<char>>, key: Seq<char>, k: int) -> bool {
    &&& 0 <= k < ls.len()
    &&& has_prefix(ls[k], key)
    &&& forall|j: int| 0 <= j < k ==> !#[trigger] has_prefix(ls[j], key)
}

/// Whether no line of `ls` starts with `key`.
pub open spec fn no_line_with(ls: Seq<Seq<char>>, key: Seq<char>) -> bool {
    forall|j: int| 0 <= j < ls.len() ==> !#[trigger] has_prefix(ls[j], key)
}

/// One part of the Windows hardware information, from the `wmic` output for
/// `key`: when the output has a line starting with `key`, the trimmed text
/// after the first `=` of the first such line (up to the next `=`), or
/// "Unknown" if that is empty; "Unknown" when there is no output or no such
/// line.
pub open spec fn windows_part_law(part: Seq<char>, output: Option<Seq<char>>, key: Seq<char>) -> bool {
    match output {
        None => part == unknown(),
        Some(o) => {
            &&& no_line_with(lines(o), key) ==> part == unknown()
            &&& forall|k: int| #[trigger]
                is_first_line_with(lines(o), key, k) ==> {
                    let v = trim(second_field(lines(o)[k], '='));
                    &&& v.len() > 0 ==> part == v
                    &&& v.len() == 0 ==> part == unknown()
                }
        },
    }
}

proof fn lemma_windows_wmic_value(output: Option<Seq<char>>, key: Seq<char>)
    ensures
        match output {
            None => wmic_value(output, key).len() == 0,
            Some(o) => {
                &&& no_line_with(lines(o), key) ==> wmic_value(output, key).len() == 0
                &&& forall|k: int| #[trigger]
                    is_first_line_with(lines(o), key, k) ==> wmic_value(output, key) == trim(
                        second_field(lines(o)[k], '='),
                    )
            },
        },
{
    if let Some(o) = output {
        if no_line_with(lines(o), key) {
            lemma_keyed_value_absent(lines(o), key);
        }
        assert forall|k: int| #[trigger] is_first_line_with(lines(o), key, k) implies wmic_value(
            output,
            key,
        ) == trim(second_field(lines(o)[k], '=')) by {
            lemma_keyed_value_first(lines(o), key, k);
        }
    }
}

/// On Windows each of manufacturer, model and model number is the value of
/// the first line of its `wmic` output that starts with `Manufacturer=`,
/// `Model=` or `SystemSKUNumber=` respectively, or "Unknown".
pub proof fn lemma_windows_parts_from_first_wmic_line(
    manufacturer: Option<Seq<char>>,
    model: Option<Seq<char>>,
    sku: Option<Seq<char>>,
    id: Option<Seq<char>>,
)
    ensures
        ({
            let h = hardware_info_of(PlatformProbeView::Windows { manufacturer, model, sku }, id);
            &&& windows_part_law(h.manufacturer, manufacturer, "Manufacturer="@)
            &&& windows_part_law(h.model, model, "Model="@)
            &&& windows_part_law(h.model_number, sku, "SystemSKUNumber="@)
            &&& h.id == id
        }),
{
    lemma_windows_wmic_value(manufacturer, "Manufacturer="@);
    lemma_windows_wmic_value(model, "Model="@);
    lemma_windows_wmic_value(sku, "SystemSKUNumber="@);
}

/// Whether line `k` of `ls` is the last that, trimmed, starts with `key`.
pub open spec fn is_last_trimmed_line_with(ls: Seq<Seq<char>>, key: Seq<char>, k: int) -> bool {
    &&& 0 <= k < ls.len()
    &&& has_prefix(trim(ls[k]), key)
    &&& forall|j: int| k < j < ls.len() ==> !#[trigger] has_prefix(trim(ls[j]), key)
}

/// Whether no line of `ls`, trimmed, starts with `key`.
pub open spec fn no_trimmed_line_with(ls: Seq<Seq<char>>, key: Seq<char>) -> bool {
    forall|j: int| 0 <= j < ls.len() ==> !#[trigger] has_prefix(trim(ls[j]), key)
}

/// The value of line `k` of `system_profiler` output: its trimmed text after
/// the first `:` (up to the next one), once the line is trimmed.
pub open spec fn profiler_line_value(ls: Seq<Seq<char>>, k: int) -> Seq<char> {
    trim(second_field(trim(ls[k]), ':'))
}

/// The macOS parts from what `system_profiler` says: when its last
/// "Model Name:" line and its last "Model Identifier:" line both have
/// non-empty values, an Apple machine with that model and model number.
pub open spec fn macos_profiler_law(h: HardwareInfoView, p: Seq<char>) -> bool {
    forall|a: int, b: int|
        #[trigger] is_last_trimmed_line_with(lines(p), "Model Name:"@, a)
            && #[trigger] is_last_trimmed_line_with(lines(p), "Model Identifier:"@, b)
            && profiler_line_value(lines(p), a).len() > 0 && profiler_line_value(lines(p), b).len()
            > 0 ==> h.manufacturer == "Apple"@ && h.model == profiler_line_value(lines(p), a)
            && h.model_number == profiler_line_value(lines(p), b)
}

/// The macOS parts when `system_profiler` tells nothing: the trimmed `sysctl`
/// output as the model number of an Apple "Mac" when it is not blank,
/// otherwise "Unknown" for every part.
pub open spec fn macos_sysctl_law(h: HardwareInfoView, sysctl: Option<Seq<char>>) -> bool {
    match sysctl {
        Some(c) if trim(c).len() > 0 => h.manufacturer == "Apple"@ && h.model == "Mac"@
            && h.model_number == trim(c),
        _ => h.manufacturer == unknown() && h.model == unknown() && h.model_number == unknown(),
    }
}

/// On macOS the model name and identifier come from the last matching
/// `system_profiler` lines when both are there and not empty; when the
/// profiler failed, or has no "Model Name:" line, or no "Model Identifier:"
/// line, the `sysctl` output decides.
pub proof fn lemma_macos_parts_from_profiler_then_sysctl(
    profiler: Option<Seq<char>>,
    sysctl: Option<Seq<char>>,
    id: Option<Seq<char>>,
)
    ensures
        ({
            let h = hardware_info_of(PlatformProbeView::MacOs { profiler, sysctl }, id);
            &&& match profiler {
                Some(p) => {
                    &&& macos_profiler_law(h, p)
                    &&& no_trimmed_line_with(lines(p), "Model Name:"@) || no_trimmed_line_with(
                        lines(p),
                        "Model Identifier:"@,
                    ) ==> macos_sysctl_law(h, sysctl)
                },
                None => macos_sysctl_law(h, sysctl),
            }
            &&& h.id == id
        }),
{
    reveal_strlit("Unknown");
    if let Some(p) = profiler {
        let h = hardware_info_of(PlatformProbeView::MacOs { profiler, sysctl }, id);
        assert forall|a: int, b: int|
            #[trigger] is_last_trimmed_line_with(lines(p), "Model Name:"@, a)
                && #[trigger] is_last_trimmed_line_with(lines(p), "Model Identifier:"@, b)
                && profiler_line_value(lines(p), a).len() > 0 && profiler_line_value(
                lines(p),
                b,
            ).len() > 0 implies h.manufacturer == "Apple"@ && h.model == profiler_line_value(
            lines(p),
            a,
        ) && h.model_number == profiler_line_value(lines(p), b) by {
            lemma_profiler_value_last(lines(p), "Model Name:"@, a);
            lemma_profiler_value_last(lines(p), "Model Identifier:"@, b);
        }
        if no_trimmed_line_with(lines(p), "Model Name:"@) {
            lemma_profiler_value_absent(lines(p), "Model Name:"@);
        }
        if no_trimmed_line_with(lines(p), "Model Identifier:"@) {
            lemma_profiler_value_absent(lines(p), "Model Identifier:"@);
        }
    }
}

} // verus!
