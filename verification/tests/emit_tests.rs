use idl_to_ts::emit::{
    patch_metadata, prepare_new_idl, prepare_old_idl, process_new_idl, process_old_idl,
    resolve_export_name, resolve_name, Cli, OldIdl,
};
use idl_to_ts::model::{Idl, IdlAccount, IdlMetadata};
use idl_to_ts::version::{
    classify_format, detect_idl_version, resolve_idl_version, IdlError, IdlVersion,
};

fn text(t: &str) -> String {
    String::from(t)
}

fn cli() -> Cli {
    Cli {
        path: text("idl.json"),
        out: None,
        idl_type_name: None,
        description: None,
        repository: None,
        idl_version: None,
        verbose: false,
    }
}

fn document(name: &str) -> Idl {
    Idl {
        address: text("Program_Address_111"),
        docs: vec![],
        metadata: IdlMetadata {
            name: text(name),
            version: text("0.1.0"),
            spec: text("0.1.0"),
            description: None,
            repository: None,
            dependencies: vec![],
            contact: None,
            deployments: None,
        },
        instructions: vec![],
        accounts: vec![IdlAccount { name: text("My_Account"), discriminator: vec![1] }],
        events: vec![],
        errors: vec![],
        types: vec![],
        constants: vec![],
    }
}

#[test]
fn root_name_is_detected_as_old() {
    assert_eq!(detect_idl_version(b"{\"name\": \"foo\", \"accounts\": []}"), Ok(IdlVersion::Old));
}

#[test]
fn metadata_name_is_detected_as_new() {
    assert_eq!(
        detect_idl_version(b"{\"metadata\": {\"name\": \"foo\"}, \"accounts\": []}"),
        Ok(IdlVersion::New)
    );
}

#[test]
fn metadata_name_wins_over_root_name() {
    assert_eq!(
        detect_idl_version(b"{\"name\": \"bar\", \"metadata\": {\"name\": \"foo\"}}"),
        Ok(IdlVersion::New)
    );
}

#[test]
fn neither_name_is_ambiguous() {
    assert_eq!(detect_idl_version(b"{\"accounts\": []}"), Err(IdlError::AmbiguousFormat));
    assert_eq!(detect_idl_version(b"[1, 2]"), Err(IdlError::AmbiguousFormat));
}

#[test]
fn metadata_without_name_falls_back_to_root_name() {
    assert_eq!(
        detect_idl_version(b"{\"name\": \"foo\", \"metadata\": {\"version\": \"1\"}}"),
        Ok(IdlVersion::Old)
    );
    assert_eq!(
        detect_idl_version(b"{\"metadata\": {\"version\": \"1\"}}"),
        Err(IdlError::AmbiguousFormat)
    );
    assert_eq!(detect_idl_version(b"{\"name\": \"foo\", \"metadata\": 3}"), Ok(IdlVersion::Old));
}

#[test]
fn bytes_that_are_no_json_are_malformed() {
    assert_eq!(detect_idl_version(b"{not json"), Err(IdlError::MalformedInput));
    assert_eq!(detect_idl_version(b""), Err(IdlError::MalformedInput));
}

#[test]
fn classification_by_presence() {
    assert_eq!(classify_format(true, true), Ok(IdlVersion::New));
    assert_eq!(classify_format(true, false), Ok(IdlVersion::New));
    assert_eq!(classify_format(false, true), Ok(IdlVersion::Old));
    assert_eq!(classify_format(false, false), Err(IdlError::AmbiguousFormat));
}

#[test]
fn forced_version_bypasses_detection() {
    assert_eq!(resolve_idl_version(Some(IdlVersion::Old), b"{not json"), Ok(IdlVersion::Old));
    assert_eq!(
        resolve_idl_version(Some(IdlVersion::New), b"{\"name\": \"foo\"}"),
        Ok(IdlVersion::New)
    );
    assert_eq!(resolve_idl_version(None, b"{\"name\": \"foo\"}"), Ok(IdlVersion::Old));
    assert_eq!(resolve_idl_version(None, b"{}"), Err(IdlError::AmbiguousFormat));
}

#[test]
fn each_error_has_its_message() {
    assert_eq!(IdlError::MalformedInput.message(), "Failed to parse JSON for version detection");
    assert_eq!(
        IdlError::AmbiguousFormat.message(),
        "Could not determine IDL format - neither 'name' nor 'metadata.name' found"
    );
    assert_eq!(IdlError::SerializationFailure.message(), "Failed to serialize the converted IDL");
}

#[test]
fn export_name_is_the_override_in_upper_camel_case() {
    assert_eq!(resolve_export_name(&Some(text("custom_name")), "my_program"), "CustomName");
    assert_eq!(resolve_export_name(&Some(text("Custom")), "my_program"), "Custom");
    assert_eq!(resolve_export_name(&Some(text("token-vault idl")), "my_program"), "TokenVaultIdl");
}

#[test]
fn resolved_name_is_the_override_as_written() {
    assert_eq!(resolve_name(&Some(text("custom_name")), "my_program"), "custom_name");
    assert_eq!(resolve_name(&None, "my_program"), "my_program");
}

#[test]
fn export_name_defaults_to_upper_camel_case() {
    assert_eq!(resolve_export_name(&None, "my_program"), "MyProgram");
    assert_eq!(resolve_export_name(&None, "token-vault"), "TokenVault");
    assert_eq!(resolve_export_name(&None, "vault"), "Vault");
}

#[test]
fn new_artifact_is_one_type_declaration() {
    let doc = document("my_program");
    let (output, name) = process_new_idl(&doc, "{\n  \"a\": 1\n}", &cli());
    assert_eq!(output, "export type MyProgram = {\n  \"a\": 1\n};\n");
    assert_eq!(name, "my_program");
}

#[test]
fn new_artifact_uses_the_override() {
    let doc = document("my_program");
    let mut args = cli();
    args.idl_type_name = Some(text("Chosen"));
    let (output, name) = process_new_idl(&doc, "{}", &args);
    assert_eq!(output, "export type Chosen = {};\n");
    assert_eq!(name, "Chosen");
}

#[test]
fn old_artifact_has_type_and_value() {
    let doc = OldIdl { name: text("legacy_program"), accounts: vec![] };
    let (output, name) = process_old_idl(&doc, "{\n  \"a\": 1\n}", &cli());
    assert_eq!(
        output,
        "export type LegacyProgram = {\n  \"a\": 1\n};\n\nexport const IDL: LegacyProgram = {\n  \"a\": 1\n};\n"
    );
    assert_eq!(name, "legacy_program");
}

#[test]
fn old_artifact_uses_the_override() {
    let doc = OldIdl { name: text("legacy_program"), accounts: vec![] };
    let mut args = cli();
    args.idl_type_name = Some(text("Other"));
    let (output, name) = process_old_idl(&doc, "[]", &args);
    assert_eq!(output, "export type Other = [];\n\nexport const IDL: Other = [];\n");
    assert_eq!(name, "Other");
}

#[test]
fn old_document_gets_its_account_names_rewritten() {
    let doc = OldIdl {
        name: text("Legacy_Program"),
        accounts: vec![text("User_Account"), text("VAULT")],
    };
    let mut out = doc;
    prepare_old_idl(&mut out);
    assert_eq!(out.name, "Legacy_Program");
    assert_eq!(out.accounts, vec![text("userAccount"), text("vault")]);
}

#[test]
fn description_override_is_taken_as_given() {
    let mut args = cli();
    args.description = Some(text("x"));
    let mut out = document("my_program");
    prepare_new_idl(&mut out, &args);
    assert_eq!(out.metadata.description, Some(text("x")));
    assert_eq!(out.metadata.repository, None);
    assert_eq!(out.metadata.name, "my_program");
    assert_eq!(
        out.accounts,
        vec![IdlAccount { name: text("myAccount"), discriminator: vec![1] }]
    );
}

#[test]
fn metadata_is_unchanged_without_overrides() {
    let mut out = document("my_program");
    prepare_new_idl(&mut out, &cli());
    assert_eq!(out.metadata, document("my_program").metadata);
}

#[test]
fn overrides_replace_existing_values_and_are_not_case_converted() {
    let mut after = IdlMetadata {
        name: text("my_program"),
        version: text("1.2.3"),
        spec: text("0.1.0"),
        description: Some(text("old text")),
        repository: Some(text("https://old.example")),
        dependencies: vec![],
        contact: Some(text("someone")),
        deployments: None,
    };
    patch_metadata(&mut after, &Some(text("New_Text here")), &None);
    assert_eq!(
        after,
        IdlMetadata {
            name: text("my_program"),
            version: text("1.2.3"),
            spec: text("0.1.0"),
            description: Some(text("New_Text here")),
            repository: Some(text("https://old.example")),
            dependencies: vec![],
            contact: Some(text("someone")),
            deployments: None,
        }
    );
    let mut both = after;
    patch_metadata(&mut both, &None, &Some(text("https://new.example")));
    assert_eq!(both.description, Some(text("New_Text here")));
    assert_eq!(both.repository, Some(text("https://new.example")));
}

#[test]
fn embedded_literal_parses_back_to_the_same_value() {
    let value: serde_json::Value =
        serde_json::from_slice(b"{\"metadata\": {\"name\": \"my_program\"}, \"accounts\": [{\"name\": \"vaultState\"}]}")
            .unwrap();
    let json = serde_json::to_string_pretty(&value).unwrap();
    let (output, _) = process_new_idl(&document("my_program"), &json, &cli());
    let literal = output
        .strip_prefix("export type MyProgram = ")
        .and_then(|rest| rest.strip_suffix(";\n"))
        .unwrap();
    assert_eq!(literal, json);
    let back: serde_json::Value = serde_json::from_slice(literal.as_bytes()).unwrap();
    assert_eq!(back, value);
}

#[test]
fn artifact_ends_with_a_newline() {
    let (new_output, _) = process_new_idl(&document("p"), "{}", &cli());
    assert!(new_output.ends_with(";\n"));
    let legacy = OldIdl { name: text("p"), accounts: vec![] };
    let (old_output, _) = process_old_idl(&legacy, "{}", &cli());
    assert!(old_output.ends_with(";\n"));
}

#[test]
fn new_artifact_converts_the_override_and_returns_it_as_written() {
    let mut args = cli();
    args.idl_type_name = Some(text("custom_name"));
    let (output, name) = process_new_idl(&document("my_program"), "{\n  \"a\": 1\n}", &args);
    assert!(output.starts_with("export type CustomName = {"));
    assert_eq!(output, "export type CustomName = {\n  \"a\": 1\n};\n");
    assert!(!output.contains("MyProgram"));
    assert_eq!(name, "custom_name");
}

#[test]
fn old_artifact_converts_the_override_and_returns_it_as_written() {
    let doc = OldIdl { name: text("my_program"), accounts: vec![] };
    let mut args = cli();
    args.idl_type_name = Some(text("custom_name"));
    let (output, name) = process_old_idl(&doc, "{\n  \"a\": 1\n}", &args);
    assert!(output.starts_with("export type CustomName = {"));
    assert!(output.contains("export const IDL: CustomName = {"));
    assert!(!output.contains("MyProgram"));
    assert!(!output.contains("custom_name"));
    assert_eq!(name, "custom_name");
}
