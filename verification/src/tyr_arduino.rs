//! Arduino boards: the device descriptor, the compiler flags that it
//! yields, and the commands for the `arduino-cli` toolchain.

use crate::error::{DescriptorFault, DescriptorField, TyrError};
use crate::tyr_config::{TyrConfig, TyrConfigView};
use crate::tyr_utils::{
    command_outcome, json_value, process_command, string_views, ProcessOutput, ToolCommand,
    ToolCommandView,
};
use crate::yaml::{load_documents, loaded_documents, node_views, LoadFault, Node, NodeView};
use vstd::prelude::*;

verus! {

/// One compile-time definition: what is written before the value, and the
/// value.
#[derive(Debug, Clone, PartialEq, Eq)]
pub struct ConfigEntry {
    pub compile_time_prefix: String,
    pub value: String,
}

/// The mathematical value of a [`ConfigEntry`].
pub struct ConfigEntryView {
    pub compile_time_prefix: Seq<char>,
    pub value: Seq<char>,
}

impl View for ConfigEntry {
    type V = ConfigEntryView;

    open spec fn view(&self) -> ConfigEntryView {
        ConfigEntryView { compile_time_prefix: self.compile_time_prefix@, value: self.value@ }
    }
}

/// The values of a sequence of entries, in order.
pub open spec fn config_entry_views(entries: Seq<ConfigEntry>) -> Seq<ConfigEntryView> {
    Seq::new(entries.len(), |i: int| entries[i]@)
}

/// What a device descriptor says about one device.
#[derive(Debug, Clone, PartialEq, Eq)]
pub struct Descriptor {
    /// `Device.id`.
    pub device_id: String,
    /// `CompileTimeConfigPrefix`.
    pub compile_time_config_prefix: String,
    /// `DeviceConfig`, in the order of the file.
    pub device_config: Vec<ConfigEntry>,
    /// `Networks[0].config`, in the order of the file.
    pub network_config: Vec<ConfigEntry>,
}

/// The mathematical value of a [`Descriptor`].
pub struct DescriptorView {
    pub device_id: Seq<char>,
    pub compile_time_config_prefix: Seq<char>,
    pub device_config: Seq<ConfigEntryView>,
    pub network_config: Seq<ConfigEntryView>,
}

impl View for Descriptor {
    type V = DescriptorView;

    open spec fn view(&self) -> DescriptorView {
        DescriptorView {
            device_id: self.device_id@,
            compile_time_config_prefix: self.compile_time_config_prefix@,
            device_config: config_entry_views(self.device_config@),
            network_config: config_entry_views(self.network_config@),
        }
    }
}

/// The half of an entry that is absent or no string.
#[derive(Debug, Clone, Copy, PartialEq, Eq)]
pub enum EntryPart {
    Prefix,
    Value,
}

/// The string that the mapping `node` stores under `key`.
pub open spec fn text_member(node: NodeView, key: Seq<char>) -> Option<Seq<char>> {
    match node.member(key) {
        Some(found) => found.text(),
        None => None,
    }
}

/// The sequence that the mapping `node` stores under `key`.
pub open spec fn items_member(node: NodeView, key: Seq<char>) -> Option<Seq<NodeView>> {
    match node.member(key) {
        Some(found) => found.items(),
        None => None,
    }
}

/// `Device.id` of the document `root`.
pub open spec fn device_id_of(root: NodeView) -> Option<Seq<char>> {
    match root.member("Device"@) {
        Some(device) => text_member(device, "id"@),
        None => None,
    }
}

/// `Networks[0].config` of the document `root`.
pub open spec fn network_items_of(root: NodeView) -> Option<Seq<NodeView>> {
    match root.member("Networks"@) {
        Some(networks) => match networks.first() {
            Some(network) => items_member(network, "config"@),
            None => None,
        },
        None => None,
    }
}

/// The entry that `node` describes: `compile_time_prefix` is looked at
/// before `value`.
pub open spec fn entry_of(node: NodeView) -> Result<ConfigEntryView, EntryPart> {
    match text_member(node, "compile_time_prefix"@) {
        None => Err(EntryPart::Prefix),
        Some(compile_time_prefix) => match text_member(node, "value"@) {
            None => Err(EntryPart::Value),
            Some(value) => Ok(ConfigEntryView { compile_time_prefix, value }),
        },
    }
}

/// The entries that `items` describe, in order; or the index of the first
/// item that describes none, with the half that it lacks.
pub open spec fn entries_of(items: Seq<NodeView>) -> Result<Seq<ConfigEntryView>, (int, EntryPart)>
    decreases items.len(),
{
    if items.len() == 0 {
        Ok(Seq::empty())
    } else {
        match entries_of(items.drop_last()) {
            Err(fault) => Err(fault),
            Ok(entries) => match entry_of(items.last()) {
                Err(part) => Err((items.len() - 1, part)),
                Ok(entry) => Ok(entries.push(entry)),
            },
        }
    }
}

/// The field that an entry of `DeviceConfig` lacks.
pub open spec fn device_entry_field(index: int, part: EntryPart) -> DescriptorField {
    match part {
        EntryPart::Prefix => DescriptorField::DeviceConfigPrefix(index as usize),
        EntryPart::Value => DescriptorField::DeviceConfigValue(index as usize),
    }
}

/// The field that an entry of `Networks[0].config` lacks.
pub open spec fn network_entry_field(index: int, part: EntryPart) -> DescriptorField {
    match part {
        EntryPart::Prefix => DescriptorField::NetworkConfigPrefix(index as usize),
        EntryPart::Value => DescriptorField::NetworkConfigValue(index as usize),
    }
}

/// The descriptor that the document `root` holds, or the first field, in
/// the order of [`DescriptorField`], that is absent or has the wrong type.
pub open spec fn descriptor_of(root: NodeView) -> Result<DescriptorView, DescriptorField> {
    match device_id_of(root) {
        None => Err(DescriptorField::DeviceId),
        Some(device_id) => match text_member(root, "CompileTimeConfigPrefix"@) {
            None => Err(DescriptorField::CompileTimeConfigPrefix),
            Some(compile_time_config_prefix) => match items_member(root, "DeviceConfig"@) {
                None => Err(DescriptorField::DeviceConfig),
                Some(device_items) => match entries_of(device_items) {
                    Err((index, part)) => Err(device_entry_field(index, part)),
                    Ok(device_config) => match network_items_of(root) {
                        None => Err(DescriptorField::NetworkConfig),
                        Some(network_items) => match entries_of(network_items) {
                            Err((index, part)) => Err(network_entry_field(index, part)),
                            Ok(network_config) => Ok(
                                DescriptorView {
                                    device_id,
                                    compile_time_config_prefix,
                                    device_config,
                                    network_config,
                                },
                            ),
                        },
                    },
                },
            },
        },
    }
}

/// The fault of a descriptor whose text was not turned into documents.
pub open spec fn load_fault(fault: LoadFault) -> TyrError {
    match fault {
        LoadFault::TooDeep => TyrError::DescriptorParseError(DescriptorFault::TooDeep),
        LoadFault::Syntax => TyrError::DescriptorParseError(DescriptorFault::Syntax),
    }
}

/// The descriptor of the device `device_id` in the documents `docs` of a
/// descriptor file, or in what stands for a file that was not loaded. Only
/// the first document counts. Every field is looked at before the id is
/// compared.
pub open spec fn descriptor_in(
    device_id: Seq<char>,
    docs: Result<Seq<NodeView>, LoadFault>,
) -> Result<DescriptorView, TyrError> {
    match docs {
        Err(fault) => Err(load_fault(fault)),
        Ok(docs) => if docs.len() == 0 {
            Err(TyrError::DescriptorParseError(DescriptorFault::NoDocument))
        } else {
            match descriptor_of(docs[0]) {
                Err(field) => Err(TyrError::DescriptorParseError(DescriptorFault::Field(field))),
                Ok(descriptor) => if descriptor.device_id == device_id {
                    Ok(descriptor)
                } else {
                    Err(TyrError::DeviceIdMismatch)
                },
            }
        },
    }
}

/// The descriptor of the device `device_id` in a descriptor file with the
/// text `source` (`None`: there is no such file).
pub open spec fn loaded_descriptor(device_id: Seq<char>, source: Option<Seq<char>>) -> Result<
    DescriptorView,
    TyrError,
> {
    match source {
        None => Err(TyrError::DescriptorNotFound),
        Some(text) => descriptor_in(device_id, loaded_documents(text)),
    }
}

/// The flags that one entry yields: prefix, value, one space.
pub open spec fn entry_flags(entry: ConfigEntryView) -> Seq<char> {
    entry.compile_time_prefix + entry.value + seq![' ']
}

/// The flags that the entries yield, one after the other.
pub open spec fn entries_flags(entries: Seq<ConfigEntryView>) -> Seq<char>
    decreases entries.len(),
{
    if entries.len() == 0 {
        Seq::empty()
    } else {
        entries_flags(entries.drop_last()) + entry_flags(entries.last())
    }
}

/// The flags of a descriptor: its prefix, then the device's definitions,
/// then those of the first network.
pub open spec fn assembled_flags(descriptor: DescriptorView) -> Seq<char> {
    descriptor.compile_time_config_prefix + entries_flags(descriptor.device_config)
        + entries_flags(descriptor.network_config)
}

/// The flags keep the order of the entries: those of one sequence after
/// another are the flags of the first followed by the flags of the second.
pub proof fn lemma_entries_flags_concat(first: Seq<ConfigEntryView>, second: Seq<ConfigEntryView>)
    ensures
        entries_flags(first + second) == entries_flags(first) + entries_flags(second),
    decreases second.len(),
{
    if second.len() == 0 {
        assert(first + second =~= first);
        assert(entries_flags(first) + entries_flags(second) =~= entries_flags(first));
    } else {
        lemma_entries_flags_concat(first, second.drop_last());
        assert((first + second).drop_last() =~= first + second.drop_last());
        assert((first + second).last() == second.last());
        assert(entries_flags(first + second) =~= entries_flags(first) + entries_flags(second));
    }
}

/// A sequence of items yields entries exactly when each item does, and
/// then one entry for each item, in order. Otherwise the fault is that of
/// the first item which yields none.
pub proof fn lemma_entries_of(items: Seq<NodeView>)
    ensures
        match entries_of(items) {
            Ok(entries) => {
                &&& entries.len() == items.len()
                &&& forall|i: int|
                    0 <= i < items.len() ==> entry_of(#[trigger] items[i]) == Ok::<
                        ConfigEntryView,
                        EntryPart,
                    >(entries[i])
            },
            Err((index, part)) => {
                &&& 0 <= index < items.len()
                &&& entry_of(items[index]) == Err::<ConfigEntryView, EntryPart>(part)
                &&& forall|i: int| 0 <= i < index ==> entry_of(#[trigger] items[i]) is Ok
            },
        },
    decreases items.len(),
{
    if items.len() > 0 {
        lemma_entries_of(items.drop_last());
        assert(forall|i: int| 0 <= i < items.len() - 1 ==> items.drop_last()[i] == items[i]);
    }
}

/// The views of the two sides of a result.
pub open spec fn descriptor_result_view(r: Result<Descriptor, TyrError>) -> Result<
    DescriptorView,
    TyrError,
> {
    match r {
        Ok(descriptor) => Ok(descriptor@),
        Err(e) => Err(e),
    }
}

/// The views of the two sides of a result.
pub open spec fn flags_result_view(r: Result<String, TyrError>) -> Result<Seq<char>, TyrError> {
    match r {
        Ok(flags) => Ok(flags@),
        Err(e) => Err(e),
    }
}

/// The flags of a descriptor, or the error that kept it from loading.
pub open spec fn flags_of(loaded: Result<DescriptorView, TyrError>) -> Result<Seq<char>, TyrError> {
    match loaded {
        Ok(descriptor) => Ok(assembled_flags(descriptor)),
        Err(e) => Err(e),
    }
}

/// The string that the mapping `node` stores under `key`, copied.
fn read_text(node: &Node, key: &str) -> (r: Option<String>)
    ensures
        match r {
            Some(text) => text_member(node@, key@) == Some(text@),
            None => text_member(node@, key@) is None,
        },
{
    match node.member(key) {
        Some(found) => match found.as_str() {
            Some(text) => Some(text.to_owned()),
            None => None,
        },
        None => None,
    }
}

/// The sequence that the mapping `node` stores under `key`.
fn read_items<'a>(node: &'a Node, key: &str) -> (r: Option<&'a Vec<Node>>)
    ensures
        match r {
            Some(items) => items_member(node@, key@) == Some(node_views(items@)),
            None => items_member(node@, key@) is None,
        },
{
    match node.member(key) {
        Some(found) => found.as_vec(),
        None => None,
    }
}

/// The entry that `node` describes.
fn read_entry(node: &Node) -> (r: Result<ConfigEntry, EntryPart>)
    ensures
        match r {
            Ok(entry) => entry_of(node@) == Ok::<ConfigEntryView, EntryPart>(entry@),
            Err(part) => entry_of(node@) == Err::<ConfigEntryView, EntryPart>(part),
        },
{
    match read_text(node, "compile_time_prefix") {
        None => Err(EntryPart::Prefix),
        Some(compile_time_prefix) => match read_text(node, "value") {
            None => Err(EntryPart::Value),
            Some(value) => Ok(ConfigEntry { compile_time_prefix, value }),
        },
    }
}

/// The entries that `items` describe.
fn read_entries(items: &Vec<Node>) -> (r: Result<Vec<ConfigEntry>, (usize, EntryPart)>)
    ensures
        match r {
            Ok(entries) => entries_of(node_views(items@)) == Ok::<
                Seq<ConfigEntryView>,
                (int, EntryPart),
            >(config_entry_views(entries@)),
            Err((index, part)) => entries_of(node_views(items@)) == Err::<
                Seq<ConfigEntryView>,
                (int, EntryPart),
            >((index as int, part)),
        },
{
    let ghost all = node_views(items@);
    let mut entries: Vec<ConfigEntry> = Vec::new();
    let mut i: usize = 0;
    assert(config_entry_views(entries@) =~= Seq::empty());
    while i < items.len()
        invariant
            i <= items.len(),
            all == node_views(items@),
            entries_of(all.take(i as int)) == Ok::<Seq<ConfigEntryView>, (int, EntryPart)>(
                config_entry_views(entries@),
            ),
        decreases items.len() - i,
    {
        proof {
            assert(all.take(i + 1).drop_last() =~= all.take(i as int));
            assert(all.take(i + 1).last() == items@[i as int]@);
        }
        match read_entry(&items[i]) {
            Err(part) => {
                proof {
                    lemma_entries_fault_stays(all, i + 1);
                }
                return Err((i, part));
            },
            Ok(entry) => {
                let ghost before = config_entry_views(entries@);
                entries.push(entry);
                assert(config_entry_views(entries@) =~= before.push(entry@));
            },
        }
        i += 1;
    }
    assert(all.take(i as int) =~= all);
    Ok(entries)
}

/// Once a prefix of `items` holds a faulty item, the whole of `items` has
/// the same fault.
proof fn lemma_entries_fault_stays(items: Seq<NodeView>, n: int)
    requires
        0 <= n <= items.len(),
        entries_of(items.take(n)) is Err,
    ensures
        entries_of(items) == entries_of(items.take(n)),
    decreases items.len() - n,
{
    if n == items.len() {
        assert(items.take(n) =~= items);
    } else {
        assert(items.take(n + 1).drop_last() =~= items.take(n));
        lemma_entries_fault_stays(items, n + 1);
    }
}

impl Descriptor {
    /// Reads a descriptor out of the document `root`. The fields are looked
    /// at in the order of [`DescriptorField`], and the first that is absent
    /// or has the wrong type is reported.
    pub fn from_node(root: &Node) -> (r: Result<Descriptor, DescriptorField>)
        ensures
            match r {
                Ok(descriptor) => descriptor_of(root@) == Ok::<DescriptorView, DescriptorField>(
                    descriptor@,
                ),
                Err(field) => descriptor_of(root@) == Err::<DescriptorView, DescriptorField>(field),
            },
    {
        let device_id = match root.member("Device") {
            Some(device) => match read_text(device, "id") {
                Some(id) => id,
                None => return Err(DescriptorField::DeviceId),
            },
            None => return Err(DescriptorField::DeviceId),
        };
        let compile_time_config_prefix = match read_text(root, "CompileTimeConfigPrefix") {
            Some(prefix) => prefix,
            None => return Err(DescriptorField::CompileTimeConfigPrefix),
        };
        let device_config = match read_items(root, "DeviceConfig") {
            Some(items) => match read_entries(items) {
                Ok(entries) => entries,
                Err((index, part)) => return Err(
                    match part {
                        EntryPart::Prefix => DescriptorField::DeviceConfigPrefix(index),
                        EntryPart::Value => DescriptorField::DeviceConfigValue(index),
                    },
                ),
            },
            None => return Err(DescriptorField::DeviceConfig),
        };
        let network_items = match root.member("Networks") {
            Some(networks) => match networks.first() {
                Some(network) => read_items(network, "config"),
                None => None,
            },
            None => None,
        };
        let network_config = match network_items {
            Some(items) => match read_entries(items) {
                Ok(entries) => entries,
                Err((index, part)) => return Err(
                    match part {
                        EntryPart::Prefix => DescriptorField::NetworkConfigPrefix(index),
                        EntryPart::Value => DescriptorField::NetworkConfigValue(index),
                    },
                ),
            },
            None => return Err(DescriptorField::NetworkConfig),
        };
        Ok(Descriptor { device_id, compile_time_config_prefix, device_config, network_config })
    }
}

/// Picks the descriptor of the device `device_id` out of the documents of
/// a descriptor file, or passes on why the file was not loaded. Only the
/// first document counts, and its `Device.id` has to be `device_id`.
pub fn descriptor_from_documents(device_id: &str, docs: Result<&Vec<Node>, LoadFault>) -> (r:
    Result<Descriptor, TyrError>)
    ensures
        descriptor_result_view(r) == descriptor_in(
            device_id@,
            match docs {
                Ok(docs) => Ok(node_views(docs@)),
                Err(fault) => Err(fault),
            },
        ),
{
    match docs {
        Err(LoadFault::TooDeep) => Err(TyrError::DescriptorParseError(DescriptorFault::TooDeep)),
        Err(LoadFault::Syntax) => Err(TyrError::DescriptorParseError(DescriptorFault::Syntax)),
        Ok(docs) => {
            if docs.len() == 0 {
                return Err(TyrError::DescriptorParseError(DescriptorFault::NoDocument));
            }
            match Descriptor::from_node(&docs[0]) {
                Err(field) => Err(TyrError::DescriptorParseError(DescriptorFault::Field(field))),
                Ok(descriptor) => {
                    if descriptor.device_id == device_id.to_owned() {
                        Ok(descriptor)
                    } else {
                        Err(TyrError::DeviceIdMismatch)
                    }
                },
            }
        },
    }
}

/// Loads the descriptor of the device `device_id` from the text of its
/// descriptor file; `None` stands for a file that does not exist.
pub fn load_descriptor(device_id: &str, source: Option<&str>) -> (r: Result<Descriptor, TyrError>)
    ensures
        descriptor_result_view(r) == loaded_descriptor(
            device_id@,
            match source {
                Some(text) => Some(text@),
                None => None,
            },
        ),
{
    match source {
        None => Err(TyrError::DescriptorNotFound),
        Some(text) => match load_documents(text) {
            Ok(docs) => descriptor_from_documents(device_id, Ok(&docs)),
            Err(fault) => descriptor_from_documents(device_id, Err(fault)),
        },
    }
}

/// Appends the flags of `entries` to `flags`.
fn push_entries(flags: &mut String, entries: &Vec<ConfigEntry>)
    ensures
        final(flags)@ == old(flags)@ + entries_flags(config_entry_views(entries@)),
{
    let ghost all = config_entry_views(entries@);
    let mut i: usize = 0;
    while i < entries.len()
        invariant
            i <= entries.len(),
            all == config_entry_views(entries@),
            flags@ == old(flags)@ + entries_flags(all.take(i as int)),
        decreases entries.len() - i,
    {
        proof {
            reveal_strlit(" ");
            assert(all.take(i + 1).drop_last() =~= all.take(i as int));
            assert(all.take(i + 1).last() == entries@[i as int]@);
            assert(" "@ =~= seq![' ']);
        }
        flags.append(entries[i].compile_time_prefix.as_str());
        flags.append(entries[i].value.as_str());
        flags.append(" ");
        assert(flags@ =~= old(flags)@ + entries_flags(all.take(i + 1)));
        i += 1;
    }
    assert(all.take(i as int) =~= all);
}

/// Renders a descriptor as compiler flags: the prefix as it stands, then
/// for each entry of `DeviceConfig`, then for each entry of
/// `Networks[0].config`, its prefix, its value and one space. Nothing is
/// quoted or escaped.
pub fn assemble(descriptor: &Descriptor) -> (flags: String)
    ensures
        flags@ == assembled_flags(descriptor@),
{
    let mut flags = descriptor.compile_time_config_prefix.clone();
    push_entries(&mut flags, &descriptor.device_config);
    push_entries(&mut flags, &descriptor.network_config);
    flags
}

/// The compiler flags for the device `device_id`, from the text of its
/// descriptor file; `None` stands for a file that does not exist.
pub fn get_cpp_extra_flags(device_id: &str, source: Option<&str>) -> (r: Result<String, TyrError>)
    ensures
        flags_result_view(r) == flags_of(
            loaded_descriptor(
                device_id@,
                match source {
                    Some(text) => Some(text@),
                    None => None,
                },
            ),
        ),
{
    match load_descriptor(device_id, source) {
        Ok(descriptor) => Ok(assemble(&descriptor)),
        Err(e) => Err(e),
    }
}

/// The command that asks the toolchain for its version.
pub open spec fn version_command_view() -> ToolCommandView {
    ToolCommandView {
        argv: seq!["arduino-cli"@, "version"@, "--format"@, "json"@],
        failure_message: "arduino-cli not found, please download and install it from https://arduino.github.io/arduino-cli/0.34/installation/"@,
    }
}

/// What the answer to the version command says about the toolchain: a
/// failure status means that it is missing.
pub open spec fn install_outcome(success: bool, parsed: Option<serde_json::Value>) -> Result<
    serde_json::Value,
    TyrError,
> {
    match command_outcome(success, parsed) {
        Err(TyrError::SubprocessFailure) => Err(TyrError::ToolchainMissing),
        other => other,
    }
}

/// The directory of the device `device_id` under the devices directory.
pub open spec fn image_dir_of(devices_path: Seq<char>, device_id: Seq<char>) -> Seq<char> {
    devices_path + "/"@ + device_id
}

/// The descriptor file in the directory of a device.
pub open spec fn descriptor_file_of(image_dir: Seq<char>) -> Seq<char> {
    image_dir + "/config.yaml"@
}

/// Where the image of one device is built.
#[derive(Debug, Clone, PartialEq, Eq)]
pub struct ImagePaths {
    /// The directory of the device; the image is put there.
    pub image_dir: String,
    /// The descriptor of the device.
    pub descriptor_file: String,
}

/// The mathematical value of an [`ImagePaths`].
pub struct ImagePathsView {
    pub image_dir: Seq<char>,
    pub descriptor_file: Seq<char>,
}

impl View for ImagePaths {
    type V = ImagePathsView;

    open spec fn view(&self) -> ImagePathsView {
        ImagePathsView { image_dir: self.image_dir@, descriptor_file: self.descriptor_file@ }
    }
}

/// The paths for the device `device_id` under this configuration.
pub open spec fn image_paths_of(config: TyrConfigView, device_id: Seq<char>) -> ImagePathsView {
    ImagePathsView {
        image_dir: image_dir_of(config.arduino.devices_path, device_id),
        descriptor_file: descriptor_file_of(image_dir_of(config.arduino.devices_path, device_id)),
    }
}

/// Whether an image can be built: the devices directory has to be there,
/// then the sketch.
pub open spec fn prepared_image(
    config: TyrConfigView,
    device_id: Seq<char>,
    devices_path_exists: bool,
    sketch_path_exists: bool,
) -> Result<ImagePathsView, TyrError> {
    if !devices_path_exists {
        Err(TyrError::DevicesPathMissing)
    } else if !sketch_path_exists {
        Err(TyrError::SketchPathMissing)
    } else {
        Ok(image_paths_of(config, device_id))
    }
}

/// The command that compiles the sketch of `config` for the device
/// `device_id` with the compiler flags `flags`.
pub open spec fn compile_command_view(
    config: TyrConfigView,
    device_id: Seq<char>,
    flags: Seq<char>,
) -> ToolCommandView {
    ToolCommandView {
        argv: seq![
            "arduino-cli"@,
            "compile"@,
            "-e"@,
            "-b"@,
            config.arduino.board_type,
            "--build-property"@,
            flags,
            "--output-dir"@,
            image_dir_of(config.arduino.devices_path, device_id),
            config.arduino.sketch_path,
            "--format"@,
            "json"@,
        ],
        failure_message: "Failed to compile image"@,
    }
}

/// The compile command for the flags that were assembled, or the error
/// that kept them from being assembled.
pub open spec fn compile_plan(
    config: TyrConfigView,
    device_id: Seq<char>,
    flags: Result<Seq<char>, TyrError>,
) -> Result<ToolCommandView, TyrError> {
    match flags {
        Ok(flags) => Ok(compile_command_view(config, device_id, flags)),
        Err(e) => Err(e),
    }
}

/// The views of the two sides of a result.
pub open spec fn paths_result_view(r: Result<ImagePaths, TyrError>) -> Result<
    ImagePathsView,
    TyrError,
> {
    match r {
        Ok(paths) => Ok(paths@),
        Err(e) => Err(e),
    }
}

/// The views of the two sides of a result.
pub open spec fn command_result_view(r: Result<ToolCommand, TyrError>) -> Result<
    ToolCommandView,
    TyrError,
> {
    match r {
        Ok(command) => Ok(command@),
        Err(e) => Err(e),
    }
}

/// The command that asks the toolchain for its version, as JSON.
pub fn version_command() -> (command: ToolCommand)
    ensures
        command@ == version_command_view(),
{
    let mut argv: Vec<String> = Vec::new();
    argv.push("arduino-cli".to_owned());
    argv.push("version".to_owned());
    argv.push("--format".to_owned());
    argv.push("json".to_owned());
    assert(string_views(argv@) =~= version_command_view().argv);
    ToolCommand {
        argv,
        failure_message: "arduino-cli not found, please download and install it from https://arduino.github.io/arduino-cli/0.34/installation/".to_owned(),
    }
}

/// Judges the answer to [`version_command`]: the report with the JSON that
/// the toolchain printed under `result`, `ToolchainMissing` after a
/// failure status, `MalformedOutput` where a success printed something
/// else.
pub fn check_arduino_cli_install(output: &ProcessOutput) -> (r: Result<serde_json::Value, TyrError>)
    ensures
        r == install_outcome(output.success, json_value(output.stdout@)),
{
    match process_command(output) {
        Err(TyrError::SubprocessFailure) => Err(TyrError::ToolchainMissing),
        other => other,
    }
}

/// The directory and the descriptor file of the device `device_id`:
/// `<devices_path>/<device_id>` and `config.yaml` in it.
pub fn image_paths(device_id: &str, config: &TyrConfig) -> (paths: ImagePaths)
    ensures
        paths@ == image_paths_of(config@, device_id@),
{
    let mut image_dir = config.arduino.devices_path.clone();
    image_dir.append("/");
    image_dir.append(device_id);
    let mut descriptor_file = image_dir.clone();
    descriptor_file.append("/config.yaml");
    ImagePaths { image_dir, descriptor_file }
}

/// The first step of building an image, before anything is created: the
/// devices directory has to exist, then the sketch. The result says where
/// the image goes and where the descriptor is read.
pub fn prepare_image(
    device_id: &str,
    config: &TyrConfig,
    devices_path_exists: bool,
    sketch_path_exists: bool,
) -> (r: Result<ImagePaths, TyrError>)
    ensures
        paths_result_view(r) == prepared_image(
            config@,
            device_id@,
            devices_path_exists,
            sketch_path_exists,
        ),
{
    if !devices_path_exists {
        return Err(TyrError::DevicesPathMissing);
    }
    if !sketch_path_exists {
        return Err(TyrError::SketchPathMissing);
    }
    Ok(image_paths(device_id, config))
}

/// The command that compiles the sketch for the device `device_id` with
/// the compiler flags `flags`. The flags are one argument of the command,
/// as they stand.
pub fn compile_command(device_id: &str, config: &TyrConfig, flags: String) -> (command:
    ToolCommand)
    ensures
        command@ == compile_command_view(config@, device_id@, flags@),
{
    let paths = image_paths(device_id, config);
    let ghost flags_view = flags@;
    let mut argv: Vec<String> = Vec::new();
    argv.push("arduino-cli".to_owned());
    argv.push("compile".to_owned());
    argv.push("-e".to_owned());
    argv.push("-b".to_owned());
    argv.push(config.arduino.board_type.clone());
    argv.push("--build-property".to_owned());
    argv.push(flags);
    argv.push("--output-dir".to_owned());
    argv.push(paths.image_dir);
    argv.push(config.arduino.sketch_path.clone());
    argv.push("--format".to_owned());
    argv.push("json".to_owned());
    assert(string_views(argv@) =~= compile_command_view(config@, device_id@, flags_view).argv);
    ToolCommand { argv, failure_message: "Failed to compile image".to_owned() }
}

/// The second step of building an image: from the text of the device's
/// descriptor file (`None`: there is no such file) to the command that
/// compiles the sketch with the flags of the descriptor.
pub fn compile(device_id: &str, config: &TyrConfig, source: Option<&str>) -> (r: Result<
    ToolCommand,
    TyrError,
>)
    ensures
        command_result_view(r) == compile_plan(
            config@,
            device_id@,
            flags_of(
                loaded_descriptor(
                    device_id@,
                    match source {
                        Some(text) => Some(text@),
                        None => None,
                    },
                ),
            ),
        ),
{
    match get_cpp_extra_flags(device_id, source) {
        Ok(flags) => Ok(compile_command(device_id, config, flags)),
        Err(e) => Err(e),
    }
}

} // verus!
