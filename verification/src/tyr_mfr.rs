//! The manufacturing phase: what each of its commands asks for.

use crate::error::TyrError;
use crate::tyr_arduino::{
    assembled_flags, compile_command_view, compile_plan, flags_of, image_paths_of,
    loaded_descriptor, prepared_image,
};
use crate::tyr_config::{TyrConfig, TyrConfigView, TyrFamilies};
use crate::tyr_utils::{command_outcome, string_views, ToolCommand, ToolCommandView};
use vstd::prelude::*;

verus! {

/// The commands of the manufacturing phase.
#[derive(Debug, Clone, PartialEq, Eq)]
pub enum TyrManufactureCommands {
    /// Show available device images.
    ListImages,
    /// Create a new firmware image.
    CreateImage { device_id: String },
    /// Upload an image.
    UploadImage { device_service_tag: String, fimware_image_version: String },
    /// Show connected devices.
    ListDevices,
    /// Flash a device.
    FlashDevice { device_service_tag: String, fimware_image_version: String },
}

/// The mathematical value of a [`TyrManufactureCommands`].
pub enum TyrManufactureCommandsView {
    ListImages,
    CreateImage { device_id: Seq<char> },
    UploadImage { device_service_tag: Seq<char>, fimware_image_version: Seq<char> },
    ListDevices,
    FlashDevice { device_service_tag: Seq<char>, fimware_image_version: Seq<char> },
}

impl View for TyrManufactureCommands {
    type V = TyrManufactureCommandsView;

    open spec fn view(&self) -> TyrManufactureCommandsView {
        match self {
            TyrManufactureCommands::ListImages => TyrManufactureCommandsView::ListImages,
            TyrManufactureCommands::CreateImage { device_id } => {
                TyrManufactureCommandsView::CreateImage { device_id: device_id@ }
            },
            TyrManufactureCommands::UploadImage { device_service_tag, fimware_image_version } => {
                TyrManufactureCommandsView::UploadImage {
                    device_service_tag: device_service_tag@,
                    fimware_image_version: fimware_image_version@,
                }
            },
            TyrManufactureCommands::ListDevices => TyrManufactureCommandsView::ListDevices,
            TyrManufactureCommands::FlashDevice { device_service_tag, fimware_image_version } => {
                TyrManufactureCommandsView::FlashDevice {
                    device_service_tag: device_service_tag@,
                    fimware_image_version: fimware_image_version@,
                }
            },
        }
    }
}

/// What the caller does for a command of the manufacturing phase.
#[derive(Debug, Clone, PartialEq, Eq)]
pub enum ManufactureAction {
    /// Nothing.
    Nothing,
    /// Build the image of this device with the Arduino toolchain.
    CompileImage { device_id: String },
    /// Run this command of the toolchain; what it prints is not read.
    Run(ToolCommand),
    /// Say that this image is uploaded; uploading is not done yet.
    AnnounceUpload { device_service_tag: String, fimware_image_version: String },
    /// Say that this device is flashed; flashing is not done yet.
    AnnounceFlash { device_service_tag: String, fimware_image_version: String },
}

/// The mathematical value of a [`ManufactureAction`].
pub enum ManufactureActionView {
    Nothing,
    CompileImage { device_id: Seq<char> },
    Run(ToolCommandView),
    AnnounceUpload { device_service_tag: Seq<char>, fimware_image_version: Seq<char> },
    AnnounceFlash { device_service_tag: Seq<char>, fimware_image_version: Seq<char> },
}

impl View for ManufactureAction {
    type V = ManufactureActionView;

    open spec fn view(&self) -> ManufactureActionView {
        match self {
            ManufactureAction::Nothing => ManufactureActionView::Nothing,
            ManufactureAction::CompileImage { device_id } => ManufactureActionView::CompileImage {
                device_id: device_id@,
            },
            ManufactureAction::Run(command) => ManufactureActionView::Run(command@),
            ManufactureAction::AnnounceUpload { device_service_tag, fimware_image_version } => {
                ManufactureActionView::AnnounceUpload {
                    device_service_tag: device_service_tag@,
                    fimware_image_version: fimware_image_version@,
                }
            },
            ManufactureAction::AnnounceFlash { device_service_tag, fimware_image_version } => {
                ManufactureActionView::AnnounceFlash {
                    device_service_tag: device_service_tag@,
                    fimware_image_version: fimware_image_version@,
                }
            },
        }
    }
}

/// The command that lists the boards which the toolchain sees.
pub open spec fn list_devices_command_view() -> ToolCommandView {
    ToolCommandView {
        argv: seq!["arduino-cli"@, "board"@, "list"@],
        failure_message: "No devices found, please connect a device and try again"@,
    }
}

/// What `command` asks for under the configuration `config`.
pub open spec fn manufacture_action(
    command: TyrManufactureCommandsView,
    config: TyrConfigView,
) -> ManufactureActionView {
    match command {
        TyrManufactureCommandsView::ListImages => ManufactureActionView::Nothing,
        TyrManufactureCommandsView::CreateImage { device_id } => match config.family {
            TyrFamilies::Arduino => ManufactureActionView::CompileImage { device_id },
        },
        TyrManufactureCommandsView::UploadImage { device_service_tag, fimware_image_version } => {
            ManufactureActionView::AnnounceUpload { device_service_tag, fimware_image_version }
        },
        TyrManufactureCommandsView::ListDevices => ManufactureActionView::Run(
            list_devices_command_view(),
        ),
        TyrManufactureCommandsView::FlashDevice { device_service_tag, fimware_image_version } => {
            ManufactureActionView::AnnounceFlash { device_service_tag, fimware_image_version }
        },
    }
}

/// The command that lists the boards which the toolchain sees.
pub fn list_devices_command() -> (command: ToolCommand)
    ensures
        command@ == list_devices_command_view(),
{
    let mut argv: Vec<String> = Vec::new();
    argv.push("arduino-cli".to_owned());
    argv.push("board".to_owned());
    argv.push("list".to_owned());
    assert(string_views(argv@) =~= list_devices_command_view().argv);
    ToolCommand {
        argv,
        failure_message: "No devices found, please connect a device and try again".to_owned(),
    }
}

/// Decides what is done for a command of the manufacturing phase: an
/// image is built for the family of the configuration, the boards are
/// listed by the toolchain, and uploading and flashing are only announced.
pub fn handle_manufacture_commands(command: TyrManufactureCommands, config: &TyrConfig) -> (action:
    ManufactureAction)
    ensures
        action@ == manufacture_action(command@, config@),
{
    match command {
        TyrManufactureCommands::ListImages => ManufactureAction::Nothing,
        TyrManufactureCommands::CreateImage { device_id } => match config.family {
            TyrFamilies::Arduino => ManufactureAction::CompileImage { device_id },
        },
        TyrManufactureCommands::UploadImage { device_service_tag, fimware_image_version } => {
            ManufactureAction::AnnounceUpload { device_service_tag, fimware_image_version }
        },
        TyrManufactureCommands::ListDevices => ManufactureAction::Run(list_devices_command()),
        TyrManufactureCommands::FlashDevice { device_service_tag, fimware_image_version } => {
            ManufactureAction::AnnounceFlash { device_service_tag, fimware_image_version }
        },
    }
}

/// Creating an image, from the command to the end. The command asks for
/// the image of its device to be compiled. Where the devices directory and
/// the sketch exist and the descriptor of the device loads, the one
/// command that is run is the compile command with the flags of the
/// descriptor. A failure status of that command is a `SubprocessFailure`
/// whatever it printed, and there is a report exactly when it succeeded
/// and printed JSON.
pub proof fn lemma_create_image(
    config: TyrConfigView,
    device_id: Seq<char>,
    source: Option<Seq<char>>,
    success: bool,
    parsed: Option<serde_json::Value>,
)
    requires
        loaded_descriptor(device_id, source) is Ok,
    ensures
        manufacture_action(TyrManufactureCommandsView::CreateImage { device_id }, config) == (
            ManufactureActionView::CompileImage { device_id }
        ),
        prepared_image(config, device_id, true, true) == Ok::<_, TyrError>(
            image_paths_of(config, device_id),
        ),
        compile_plan(config, device_id, flags_of(loaded_descriptor(device_id, source))) == Ok::<
            _,
            TyrError,
        >(
            compile_command_view(
                config,
                device_id,
                assembled_flags(loaded_descriptor(device_id, source)->Ok_0),
            ),
        ),
        !success ==> command_outcome(success, parsed) == Err::<serde_json::Value, _>(
            TyrError::SubprocessFailure,
        ),
        command_outcome(success, parsed) is Ok <==> success && parsed is Some,
{
}

} // verus!
