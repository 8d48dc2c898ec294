//! Catalog entities: software options, supported devices, and the session
//! state that holds the most recent scan result.

use vstd::prelude::*;

verus! {

/// One obtainable software artifact attached to a device: a display name, a
/// free-text description, a fetch location and a suggested local file name.
pub struct SoftwareOption {
    pub name: String,
    pub description: String,
    pub url: String,
    pub filename: String,
}

/// Spec-level shape of a `SoftwareOption`: every field as a character sequence.
pub struct OptionModel {
    pub name: Seq<char>,
    pub description: Seq<char>,
    pub url: Seq<char>,
    pub filename: Seq<char>,
}

impl View for SoftwareOption {
    type V = OptionModel;

    open spec fn view(&self) -> OptionModel {
        OptionModel {
            name: self.name@,
            description: self.description@,
            url: self.url@,
            filename: self.filename@,
        }
    }
}

impl Clone for SoftwareOption {
    fn clone(&self) -> (res: Self)
        ensures
            res@ == self@,
    {
        SoftwareOption {
            name: self.name.clone(),
            description: self.description.clone(),
            url: self.url.clone(),
            filename: self.filename.clone(),
        }
    }
}

/// One catalog entry or fallback-generated entry: a display name (used for
/// deduplication), the 16-bit vendor and product identifiers, and the ordered
/// sequence of software options offered for the device.
pub struct SupportedDevice {
    pub name: String,
    pub vid: u16,
    pub pid: u16,
    pub options: Vec<SoftwareOption>,
}

/// Spec-level shape of a `SupportedDevice`.
pub struct DeviceModel {
    pub name: Seq<char>,
    pub vid: u16,
    pub pid: u16,
    pub options: Seq<OptionModel>,
}

impl View for SupportedDevice {
    type V = DeviceModel;

    open spec fn view(&self) -> DeviceModel {
        DeviceModel {
            name: self.name@,
            vid: self.vid,
            pid: self.pid,
            options: self.options@.map_values(|o: SoftwareOption| o@),
        }
    }
}

impl Clone for SupportedDevice {
    fn clone(&self) -> (res: Self)
        ensures
            res@ == self@,
    {
        let mut options: Vec<SoftwareOption> = Vec::new();
        let mut i: usize = 0;
        while i < self.options.len()
            invariant
                i <= self.options.len(),
                options@.len() == i,
                forall|j: int| 0 <= j < i ==> options@[j]@ == self.options@[j]@,
            decreases self.options.len() - i,
        {
            options.push(self.options[i].clone());
            i = i + 1;
        }
        proof {
            assert(options@.map_values(|o: SoftwareOption| o@) =~= self@.options);
        }
        SupportedDevice { name: self.name.clone(), vid: self.vid, pid: self.pid, options }
    }
}

/// The spec-level view of a sequence of catalog entries.
pub open spec fn device_models(devices: Seq<SupportedDevice>) -> Seq<DeviceModel> {
    devices.map_values(|d: SupportedDevice| d@)
}

/// The single session record: the ordered devices discovered by the most
/// recent scan, replaced wholesale on each successful scan.
pub struct AppState {
    pub found_devices: Vec<SupportedDevice>,
}

/// Spec-level view of the session state: the found devices in scan order.
pub open spec fn found_models(s: &AppState) -> Seq<DeviceModel> {
    device_models(s.found_devices@)
}

impl AppState {
    /// Creates the startup state: no scan has run, no device is known.
    pub fn new() -> (s: Self)
        ensures
            found_models(&s) == Seq::<DeviceModel>::empty(),
    {
        let s = AppState { found_devices: Vec::new() };
        proof {
            assert(found_models(&s) =~= Seq::<DeviceModel>::empty());
        }
        s
    }

    /// Replaces the whole device list with the result of a new scan.
    pub fn replace_found_devices(&mut self, devices: Vec<SupportedDevice>)
        ensures
            final(self).found_devices@ == devices@,
    {
        self.found_devices = devices;
    }

    /// Returns the device at a presentation index, or `None` when the index
    /// is stale or out of range (such a request is silently ignored).
    pub fn device_at(&self, index: usize) -> (r: Option<&SupportedDevice>)
        ensures
            index < self.found_devices@.len() ==> (r matches Some(d)
                && d@ == found_models(self)[index as int]),
            index >= self.found_devices@.len() ==> r is None,
    {
        if index < self.found_devices.len() {
            Some(&self.found_devices[index])
        } else {
            None
        }
    }

    /// Returns a copy of one option of one found device, or `None` when
    /// either index is stale or out of range.
    pub fn option_at(&self, device_index: usize, option_index: usize) -> (r: Option<
        SoftwareOption,
    >)
        ensures
            (device_index < found_models(self).len()
                && option_index < found_models(self)[device_index as int].options.len()) ==> (
            r matches Some(o)
                && o@ == found_models(self)[device_index as int].options[option_index as int]),
            !(device_index < found_models(self).len()
                && option_index < found_models(self)[device_index as int].options.len())
                ==> r is None,
    {
        if device_index < self.found_devices.len() {
            let d = &self.found_devices[device_index];
            if option_index < d.options.len() {
                Some(d.options[option_index].clone())
            } else {
                None
            }
        } else {
            None
        }
    }
}

/// Compares two string slices by their character sequences.
pub fn str_eq(a: &str, b: &str) -> (r: bool)
    ensures
        r == (a@ == b@),
{
    let sa: String = a.to_owned();
    let sb: String = b.to_owned();
    sa == sb
}

/// The display label for an option name: one overly long internal name is
/// abbreviated, every other name passes through unchanged.
pub open spec fn shortened_name(name: Seq<char>) -> Seq<char> {
    if name == "Onboard Memory Manager"@ {
        "OMM"@
    } else {
        name
    }
}

/// Shortens an overly long internal software name to its fixed abbreviation;
/// all other names are returned unchanged.
pub fn shorten_software_name(name: &str) -> (r: &str)
    ensures
        r@ == shortened_name(name@),
{
    if str_eq(name, "Onboard Memory Manager") {
        "OMM"
    } else {
        name
    }
}

/// The display label offered for one option: a fixed download prefix
/// followed by the (possibly abbreviated) option name.
pub open spec fn option_label_model(name: Seq<char>) -> Seq<char> {
    "Download "@ + shortened_name(name)
}

/// Builds the display label for one option name.
pub fn option_label(name: &str) -> (r: String)
    ensures
        r@ == option_label_model(name@),
{
    let mut s: String = "Download ".to_owned();
    s.append(shorten_software_name(name));
    s
}

/// The option labels of one device, in the device's option order.
pub fn option_labels(device: &SupportedDevice) -> (labels: Vec<String>)
    ensures
        labels@.len() == device@.options.len(),
        forall|i: int|
            0 <= i < labels@.len() ==> labels@[i]@ == option_label_model(device@.options[i].name),
{
    let mut labels: Vec<String> = Vec::new();
    let mut i: usize = 0;
    while i < device.options.len()
        invariant
            i <= device.options.len(),
            device@.options.len() == device.options.len(),
            labels@.len() == i,
            forall|j: int|
                0 <= j < i ==> labels@[j]@ == option_label_model(device@.options[j].name),
        decreases device.options.len() - i,
    {
        labels.push(option_label(device.options[i].name.as_str()));
        i = i + 1;
    }
    labels
}

/// The display names of the found devices, in scan order.
pub fn device_names(devices: &Vec<SupportedDevice>) -> (names: Vec<String>)
    ensures
        names@.len() == devices@.len(),
        forall|i: int|
            0 <= i < names@.len() ==> names@[i]@ == device_models(devices@)[i].name,
{
    let mut names: Vec<String> = Vec::new();
    let mut i: usize = 0;
    while i < devices.len()
        invariant
            i <= devices.len(),
            names@.len() == i,
            forall|j: int| 0 <= j < i ==> names@[j]@ == device_models(devices@)[j].name,
        decreases devices.len() - i,
    {
        names.push(devices[i].name.clone());
        i = i + 1;
    }
    names
}

/// The selected-device index presented after a scan: the first device when
/// any was found, the sentinel `-1` when none was.
pub fn initial_selection_index(found_count: usize) -> (r: i32)
    ensures
        found_count > 0 ==> r == 0,
        found_count == 0 ==> r == -1,
{
    if found_count > 0 {
        0
    } else {
        -1
    }
}

} // verus!
