use tyr::credentials::validate_credentials;
use tyr::error::{exit_code, CredentialField, DescriptorFault, DescriptorField, TyrError};
use tyr::tyr_arduino::{
    check_arduino_cli_install, compile, compile_command, image_paths, prepare_image,
    version_command, ImagePaths,
};
use tyr::tyr_config::{TyrArduinoConfig, TyrConfig, TyrFamilies};
use tyr::tyr_mfr::{
    handle_manufacture_commands, list_devices_command, ManufactureAction, TyrManufactureCommands,
};
use tyr::tyr_utils::{
    command_report, command_result, process_command, shell_command_line, shell_invocation,
    ProcessOutput, ToolCommand,
};

const VERSION_OUTPUT: &str = "{\"Application\":\"arduino-cli\",\"VersionString\":\"0.34.2\",\"Commit\":\"963c1a76\",\"Status\":\"\",\"Date\":\"2023-09-11T10:05:31Z\"}";

fn config() -> TyrConfig {
    TyrConfig {
        family: TyrFamilies::Arduino,
        arduino: TyrArduinoConfig {
            cli_path: "arduino-cli".to_string(),
            sketch_path: "/tmp/sketch".to_string(),
            board_type: "uno".to_string(),
            devices_path: "/tmp/devs".to_string(),
        },
    }
}

fn words(list: &[&str]) -> Vec<String> {
    list.iter().map(|w| w.to_string()).collect()
}

fn finished(success: bool, stdout: &str) -> ProcessOutput {
    ProcessOutput { success, stdout: stdout.to_string(), stderr: String::new() }
}

#[test]
fn test_check_arduino_cli_install() {
    let result = check_arduino_cli_install(&finished(true, VERSION_OUTPUT));
    assert!(result.is_ok());
    assert!(result.unwrap()["result"]["VersionString"]
        .as_str()
        .unwrap()
        .contains("0.34"));
}

#[test]
fn version_command_asks_for_json() {
    let command = version_command();
    assert_eq!(command.argv, words(&["arduino-cli", "version", "--format", "json"]));
    assert_eq!(
        command.failure_message,
        "arduino-cli not found, please download and install it from https://arduino.github.io/arduino-cli/0.34/installation/"
    );
}

#[test]
fn failed_version_command_means_no_toolchain() {
    assert_eq!(
        check_arduino_cli_install(&finished(false, "")),
        Err(TyrError::ToolchainMissing)
    );
    assert_eq!(
        check_arduino_cli_install(&finished(false, VERSION_OUTPUT)),
        Err(TyrError::ToolchainMissing)
    );
    assert_eq!(
        check_arduino_cli_install(&finished(true, "arduino-cli  Version: 0.34.2")),
        Err(TyrError::MalformedOutput)
    );
}

fn report(result: serde_json::Value) -> serde_json::Value {
    let mut members = serde_json::Map::new();
    members.insert("status".to_string(), serde_json::Value::String("success".to_string()));
    members.insert("result".to_string(), result);
    serde_json::Value::Object(members)
}

fn json(text: &str) -> serde_json::Value {
    serde_json::from_str(text).unwrap()
}

#[test]
fn success_is_reported_with_status_and_result() {
    let value = process_command(&finished(true, "{\"a\":1}")).unwrap();
    assert_eq!(value, json("{\"status\": \"success\", \"result\": {\"a\": 1}}"));
    assert_eq!(value, report(json("{\"a\":1}")));
    let members = value.as_object().unwrap();
    assert_eq!(members.len(), 2);
    assert_eq!(members["status"], serde_json::Value::String("success".to_string()));
    assert_eq!(members["result"]["a"].as_i64(), Some(1));
}

#[test]
fn report_holds_the_whole_output() {
    let value = process_command(&finished(true, "\"status\"")).unwrap();
    assert_eq!(value["status"].as_str(), Some("success"));
    assert_eq!(value["result"].as_str(), Some("status"));
    let value = process_command(&finished(true, "null")).unwrap();
    assert_eq!(value, report(serde_json::Value::Null));
    let nested = "{\"status\": \"failed\", \"result\": 3}";
    let value = process_command(&finished(true, nested)).unwrap();
    assert_eq!(value["status"].as_str(), Some("success"));
    assert_eq!(value["result"]["status"].as_str(), Some("failed"));
    assert_eq!(value["result"]["result"].as_i64(), Some(3));
}

#[test]
fn output_is_read_as_json_after_a_success() {
    let value = process_command(&finished(true, "{\"success\": true, \"compiler_out\": \"ok\"}"))
        .unwrap();
    assert_eq!(value["result"]["success"].as_bool(), Some(true));
    assert_eq!(value["result"]["compiler_out"].as_str(), Some("ok"));
    let value = process_command(&finished(true, " [1, 2, 3] ")).unwrap();
    assert_eq!(value["result"].as_array().map(|a| a.len()), Some(3));
    assert_eq!(value["result"][1].as_i64(), Some(2));
}

#[test]
fn command_report_wraps_any_value() {
    assert_eq!(command_report(json("[1]")), report(json("[1]")));
    assert_eq!(command_report(json("{}")), json("{\"result\": {}, \"status\": \"success\"}"));
}

#[test]
fn failure_status_counts_before_the_output() {
    assert_eq!(process_command(&finished(false, "{}")), Err(TyrError::SubprocessFailure));
    assert_eq!(process_command(&finished(false, "not json")), Err(TyrError::SubprocessFailure));
    assert_eq!(process_command(&finished(false, "")), Err(TyrError::SubprocessFailure));
}

#[test]
fn output_that_is_not_json_is_malformed() {
    assert_eq!(process_command(&finished(true, "")), Err(TyrError::MalformedOutput));
    assert_eq!(process_command(&finished(true, "{\"a\": ")), Err(TyrError::MalformedOutput));
    assert_eq!(process_command(&finished(true, "{} trailing")), Err(TyrError::MalformedOutput));
}

#[test]
fn stderr_does_not_count() {
    let output = ProcessOutput {
        success: true,
        stdout: "{\"a\": 1}".to_string(),
        stderr: "warning: something".to_string(),
    };
    assert_eq!(process_command(&output).unwrap()["result"]["a"].as_i64(), Some(1));
}

#[test]
fn command_result_goes_by_status_then_by_parse() {
    let good = || serde_json::from_str::<serde_json::Value>("{\"a\": 1}");
    let bad = || serde_json::from_str::<serde_json::Value>("{");
    assert_eq!(command_result(true, good()), Ok(report(good().unwrap())));
    assert_eq!(command_result(true, bad()), Err(TyrError::MalformedOutput));
    assert_eq!(command_result(false, good()), Err(TyrError::SubprocessFailure));
    assert_eq!(command_result(false, bad()), Err(TyrError::SubprocessFailure));
}

#[test]
fn command_line_has_one_space_between_words() {
    assert_eq!(shell_command_line(&words(&[])), "");
    assert_eq!(shell_command_line(&words(&["arduino-cli"])), "arduino-cli");
    assert_eq!(
        shell_command_line(&words(&["arduino-cli", "board", "list"])),
        "arduino-cli board list"
    );
    assert_eq!(shell_command_line(&words(&["a", "", "b"])), "a  b");
    assert_eq!(shell_command_line(&words(&["", ""])), " ");
    assert_eq!(shell_command_line(&words(&["-D A=1", "x"])), "-D A=1 x");
}

#[test]
fn shell_gets_one_line_and_cmd_gets_the_words() {
    let command = words(&["arduino-cli", "board", "list"]);
    assert_eq!(
        shell_invocation(&command, false),
        words(&["sh", "-c", "arduino-cli board list"])
    );
    assert_eq!(
        shell_invocation(&command, true),
        words(&["cmd", "/C", "arduino-cli", "board", "list"])
    );
    assert_eq!(shell_invocation(&words(&[]), false), words(&["sh", "-c", ""]));
    assert_eq!(shell_invocation(&words(&[]), true), words(&["cmd", "/C"]));
}

#[test]
fn image_paths_are_under_the_devices_directory() {
    assert_eq!(
        image_paths("dev1", &config()),
        ImagePaths {
            image_dir: "/tmp/devs/dev1".to_string(),
            descriptor_file: "/tmp/devs/dev1/config.yaml".to_string(),
        }
    );
}

#[test]
fn image_needs_the_devices_directory_then_the_sketch() {
    assert_eq!(
        prepare_image("dev1", &config(), false, false),
        Err(TyrError::DevicesPathMissing)
    );
    assert_eq!(
        prepare_image("dev1", &config(), false, true),
        Err(TyrError::DevicesPathMissing)
    );
    assert_eq!(
        prepare_image("dev1", &config(), true, false),
        Err(TyrError::SketchPathMissing)
    );
    assert_eq!(
        prepare_image("dev1", &config(), true, true),
        Ok(image_paths("dev1", &config()))
    );
}

#[test]
fn create_image_end_to_end() {
    let descriptor = "Device:\n  id: dev1\nCompileTimeConfigPrefix: 'P '\nDeviceConfig:\n  - compile_time_prefix: '-DA='\n    value: '1'\nNetworks:\n  - config:\n      - compile_time_prefix: '-DB='\n        value: '2'\n";
    let action = handle_manufacture_commands(
        TyrManufactureCommands::CreateImage { device_id: "dev1".to_string() },
        &config(),
    );
    let device_id = match action {
        ManufactureAction::CompileImage { device_id } => device_id,
        other => panic!("unexpected action {:?}", other),
    };
    let paths = prepare_image(&device_id, &config(), true, true).unwrap();
    assert_eq!(paths.descriptor_file, "/tmp/devs/dev1/config.yaml");
    let command = compile(&device_id, &config(), Some(descriptor)).unwrap();
    assert_eq!(
        command.argv,
        words(&[
            "arduino-cli",
            "compile",
            "-e",
            "-b",
            "uno",
            "--build-property",
            "P -DA=1 -DB=2 ",
            "--output-dir",
            "/tmp/devs/dev1",
            "/tmp/sketch",
            "--format",
            "json",
        ])
    );
    assert_eq!(command.failure_message, "Failed to compile image");
    assert_eq!(
        shell_invocation(&command.argv, false)[2],
        "arduino-cli compile -e -b uno --build-property P -DA=1 -DB=2  --output-dir /tmp/devs/dev1 /tmp/sketch --format json"
    );
    assert_eq!(
        process_command(&finished(false, "{\"success\": false}")),
        Err(TyrError::SubprocessFailure)
    );
    assert_eq!(exit_code(&Err(TyrError::SubprocessFailure)), 1);
    let report =
        process_command(&finished(true, "{\"success\": true, \"compiler_out\": \"\"}")).unwrap();
    assert_eq!(report["result"]["success"].as_bool(), Some(true));
    assert_eq!(report["status"].as_str(), Some("success"));
    assert_eq!(exit_code(&Ok(())), 0);
}

#[test]
fn compile_passes_on_what_the_descriptor_lacks() {
    assert_eq!(compile("dev1", &config(), None), Err(TyrError::DescriptorNotFound));
    assert_eq!(
        compile("dev1", &config(), Some("- a\n- b\n")),
        Err(TyrError::DescriptorParseError(DescriptorFault::Field(DescriptorField::DeviceId)))
    );
    assert_eq!(
        compile("dev1", &config(), Some("{")),
        Err(TyrError::DescriptorParseError(DescriptorFault::Syntax))
    );
    let other = "Device:\n  id: dev2\nCompileTimeConfigPrefix: P\nDeviceConfig: []\nNetworks:\n  - config: []\n";
    assert_eq!(compile("dev1", &config(), Some(other)), Err(TyrError::DeviceIdMismatch));
}

#[test]
fn compile_command_uses_the_fixed_toolchain_name() {
    let mut custom = config();
    custom.arduino.cli_path = "/opt/arduino/bin/arduino-cli".to_string();
    let command = compile_command("d", &custom, "F".to_string());
    assert_eq!(command.argv[0], "arduino-cli");
    assert_eq!(command.argv.len(), 12);
    assert_eq!(command.argv[6], "F");
    assert_eq!(command.argv[8], "/tmp/devs/d");
}

#[test]
fn manufacture_commands_and_their_actions() {
    let tag = || "tag-7".to_string();
    let version = || "1.2.3".to_string();
    assert_eq!(
        handle_manufacture_commands(TyrManufactureCommands::ListImages, &config()),
        ManufactureAction::Nothing
    );
    assert_eq!(
        handle_manufacture_commands(
            TyrManufactureCommands::CreateImage { device_id: "dev1".to_string() },
            &config()
        ),
        ManufactureAction::CompileImage { device_id: "dev1".to_string() }
    );
    assert_eq!(
        handle_manufacture_commands(TyrManufactureCommands::ListDevices, &config()),
        ManufactureAction::Run(ToolCommand {
            argv: words(&["arduino-cli", "board", "list"]),
            failure_message: "No devices found, please connect a device and try again"
                .to_string(),
        })
    );
    assert_eq!(
        handle_manufacture_commands(
            TyrManufactureCommands::FlashDevice {
                device_service_tag: tag(),
                fimware_image_version: version()
            },
            &config()
        ),
        ManufactureAction::AnnounceFlash {
            device_service_tag: tag(),
            fimware_image_version: version()
        }
    );
    assert_eq!(
        handle_manufacture_commands(
            TyrManufactureCommands::UploadImage {
                device_service_tag: tag(),
                fimware_image_version: version()
            },
            &config()
        ),
        ManufactureAction::AnnounceUpload {
            device_service_tag: tag(),
            fimware_image_version: version()
        }
    );
    assert_eq!(list_devices_command().argv, words(&["arduino-cli", "board", "list"]));
}

#[test]
fn short_appkey_is_rejected() {
    let deveui = "70B3D57ED005E8A1";
    let appeui = "0000000000000001";
    let appkey = "5B7F1A2C9D4E6F8091A2B3C4D5E6F70";
    assert_eq!(appkey.len(), 31);
    assert_eq!(
        validate_credentials(deveui, appeui, appkey),
        Err(TyrError::InvalidCredentialLength(CredentialField::AppKey))
    );
}

#[test]
fn credentials_of_the_right_lengths_pass() {
    assert_eq!(
        validate_credentials(
            "70B3D57ED005E8A1",
            "0000000000000001",
            "5B7F1A2C9D4E6F8091A2B3C4D5E6F708"
        ),
        Ok(())
    );
}

#[test]
fn the_first_wrong_credential_is_reported() {
    let eui = "70B3D57ED005E8A1";
    let key = "5B7F1A2C9D4E6F8091A2B3C4D5E6F708";
    assert_eq!(
        validate_credentials("", "", ""),
        Err(TyrError::InvalidCredentialLength(CredentialField::DevEui))
    );
    assert_eq!(
        validate_credentials("70B3D57ED005E8A", eui, key),
        Err(TyrError::InvalidCredentialLength(CredentialField::DevEui))
    );
    assert_eq!(
        validate_credentials("70B3D57ED005E8A1F", "short", "short"),
        Err(TyrError::InvalidCredentialLength(CredentialField::DevEui))
    );
    assert_eq!(
        validate_credentials(eui, "00000000000000012", "short"),
        Err(TyrError::InvalidCredentialLength(CredentialField::AppEui))
    );
    assert_eq!(
        validate_credentials(eui, eui, "5B7F1A2C9D4E6F8091A2B3C4D5E6F7081"),
        Err(TyrError::InvalidCredentialLength(CredentialField::AppKey))
    );
}

#[test]
fn credentials_are_counted_in_characters() {
    let eui = "70B3D57ED005E8A1";
    let key = "5B7F1A2C9D4E6F8091A2B3C4D5E6F708";
    let sixteen = "\u{e9}\u{e9}\u{e9}\u{e9}\u{e9}\u{e9}\u{e9}\u{e9}\u{e9}\u{e9}\u{e9}\u{e9}\u{e9}\u{e9}\u{e9}\u{e9}";
    assert_eq!(sixteen.len(), 32);
    assert_eq!(validate_credentials(sixteen, eui, key), Ok(()));
    assert_eq!(
        validate_credentials(eui, eui, sixteen),
        Err(TyrError::InvalidCredentialLength(CredentialField::AppKey))
    );
}

#[test]
fn every_error_exits_with_one() {
    let errors = [
        TyrError::ConfigParseError,
        TyrError::ConfigIoError,
        TyrError::DescriptorNotFound,
        TyrError::DescriptorParseError(DescriptorFault::Syntax),
        TyrError::DescriptorParseError(DescriptorFault::NoDocument),
        TyrError::DescriptorParseError(DescriptorFault::Field(DescriptorField::DeviceId)),
        TyrError::DeviceIdMismatch,
        TyrError::DevicesPathMissing,
        TyrError::SketchPathMissing,
        TyrError::ToolchainMissing,
        TyrError::SubprocessFailure,
        TyrError::MalformedOutput,
        TyrError::InvalidCredentialLength(CredentialField::AppEui),
    ];
    for error in errors {
        assert_eq!(exit_code(&Err(error)), 1);
    }
    assert_eq!(exit_code(&Ok(())), 0);
}
