//! Patching the metadata block, choosing the export name and framing the
//! serialised document as a TypeScript declaration.

use crate::casing::{casing, upper_camel, upper_camel_case};
use crate::model::{opt_text, texts, Idl, IdlMetadata, IdlModel, MetadataModel};
use crate::normalize::{convert_names, convert_new_idl, rename_idl, rename_names};
use crate::version::IdlVersion;
use vstd::prelude::*;
use vstd::string::StringExecFns;

verus! {

/// What the caller asks for.
#[derive(Debug, PartialEq, Eq)]
pub struct Cli {
    /// The path of the JSON file to convert.
    pub path: String,
    /// The file to write to; by default one named after the document.
    pub out: Option<String>,
    /// The name to export the type under, converted to UpperCamelCase; by
    /// default the document's own name.
    pub idl_type_name: Option<String>,
    /// A description to put into the metadata block (current shape only).
    pub description: Option<String>,
    /// A repository URL to put into the metadata block (current shape only).
    pub repository: Option<String>,
    /// The shape to read the document as, in place of detecting it.
    pub idl_version: Option<IdlVersion>,
    pub verbose: bool,
}

/// What normalisation reads of a legacy-shape document: its root name and
/// the names of its accounts.
#[derive(Debug, PartialEq, Eq)]
pub struct OldIdl {
    pub name: String,
    pub accounts: Vec<String>,
}

/// The model of a legacy-shape document.
pub struct OldIdlModel {
    pub name: Seq<char>,
    pub accounts: Seq<Seq<char>>,
}

impl View for OldIdl {
    type V = OldIdlModel;

    open spec fn view(&self) -> OldIdlModel {
        OldIdlModel { name: self.name@, accounts: texts(self.accounts@) }
    }
}

/// The metadata block with the description and the repository replaced
/// where a new one is given.
pub open spec fn patch_spec(
    m: MetadataModel,
    description: Option<Seq<char>>,
    repository: Option<Seq<char>>,
) -> MetadataModel {
    MetadataModel {
        description: if description is Some {
            description
        } else {
            m.description
        },
        repository: if repository is Some {
            repository
        } else {
            m.repository
        },
        ..m
    }
}

/// A document with its metadata block patched.
pub open spec fn patched_idl(
    m: IdlModel,
    description: Option<Seq<char>>,
    repository: Option<Seq<char>>,
) -> IdlModel {
    IdlModel { metadata: patch_spec(m.metadata, description, repository), ..m }
}

/// The name that a run goes by: the caller's choice where there is one,
/// else the document's own name. It is taken as it is written.
pub open spec fn resolved_name(chosen: Option<Seq<char>>, declared: Seq<char>) -> Seq<char> {
    match chosen {
        Some(n) => n,
        None => declared,
    }
}

/// The name of the exported type: the resolved name in UpperCamelCase,
/// whether the caller chose it or the document declares it.
pub open spec fn export_name(chosen: Option<Seq<char>>, declared: Seq<char>) -> Seq<char> {
    upper_camel_case(resolved_name(chosen, declared))
}

/// The artifact for a current-shape document: one type declaration.
pub open spec fn new_artifact(exported: Seq<char>, json: Seq<char>) -> Seq<char> {
    "export type "@ + exported + " = "@ + json + ";\n"@
}

/// The artifact for a legacy-shape document: a type declaration and a
/// value binding named `IDL`, both holding the same literal.
pub open spec fn old_artifact(exported: Seq<char>, json: Seq<char>) -> Seq<char> {
    "export type "@ + exported + " = "@ + json + ";\n\nexport const IDL: "@ + exported + " = "@
        + json + ";\n"@
}

/// Overwrites the description and the repository where one is given, and
/// leaves the rest of the block as it is.
pub fn patch_metadata(
    metadata: &mut IdlMetadata,
    description: &Option<String>,
    repository: &Option<String>,
)
    ensures
        final(metadata)@ == patch_spec(
            old(metadata)@,
            opt_text(*description),
            opt_text(*repository),
        ),
{
    match description {
        Some(d) => {
            metadata.description = Some(d.clone());
        },
        None => {},
    }
    match repository {
        Some(u) => {
            metadata.repository = Some(u.clone());
        },
        None => {},
    }
}

/// Patches the metadata block as `args` asks, then normalises every
/// identifier. The patched strings are taken as they are.
pub fn prepare_new_idl(idl: &mut Idl, args: &Cli)
    ensures
        final(idl)@ == rename_idl(
            patched_idl(old(idl)@, opt_text(args.description), opt_text(args.repository)),
            casing(),
        ),
{
    patch_metadata(&mut idl.metadata, &args.description, &args.repository);
    convert_new_idl(idl);
}

/// Normalises the account names of a legacy-shape document; its own name
/// is left as it is.
pub fn prepare_old_idl(idl: &mut OldIdl)
    ensures
        final(idl)@.name == old(idl)@.name,
        final(idl)@.accounts == rename_names(old(idl)@.accounts, casing()),
{
    convert_names(&mut idl.accounts);
}

/// Chooses the name that the run goes by, before any conversion: the
/// caller's choice wins over the document's own name.
pub fn resolve_name(chosen: &Option<String>, declared: &str) -> (r: String)
    ensures
        r@ == resolved_name(opt_text(*chosen), declared@),
{
    match chosen {
        Some(n) => n.clone(),
        None => String::from_str(declared),
    }
}

/// Chooses the name of the exported type and converts it to UpperCamelCase.
pub fn resolve_export_name(chosen: &Option<String>, declared: &str) -> (r: String)
    ensures
        r@ == export_name(opt_text(*chosen), declared@),
{
    let resolved = resolve_name(chosen, declared);
    upper_camel(resolved.as_str())
}

/// Frames the serialisation `idl_json` of the normalised current-shape
/// document `idl`. Returns the artifact and the resolved name as it was
/// before its conversion to UpperCamelCase.
pub fn process_new_idl(idl: &Idl, idl_json: &str, args: &Cli) -> (r: (String, String))
    ensures
        r.0@ == new_artifact(
            export_name(opt_text(args.idl_type_name), idl.metadata.name@),
            idl_json@,
        ),
        r.1@ == resolved_name(opt_text(args.idl_type_name), idl.metadata.name@),
{
    let resolved = resolve_name(&args.idl_type_name, idl.metadata.name.as_str());
    let exported = upper_camel(resolved.as_str());
    let output = String::from_str("export type ").concat(exported.as_str()).concat(" = ").concat(
        idl_json,
    ).concat(";\n");
    (output, resolved)
}

/// Frames the serialisation `idl_json` of the normalised legacy-shape
/// document `idl`. Returns the artifact and the resolved name as it was
/// before its conversion to UpperCamelCase.
pub fn process_old_idl(idl: &OldIdl, idl_json: &str, args: &Cli) -> (r: (String, String))
    ensures
        r.0@ == old_artifact(export_name(opt_text(args.idl_type_name), idl.name@), idl_json@),
        r.1@ == resolved_name(opt_text(args.idl_type_name), idl.name@),
{
    let resolved = resolve_name(&args.idl_type_name, idl.name.as_str());
    let exported = upper_camel(resolved.as_str());
    let output = String::from_str("export type ").concat(exported.as_str()).concat(" = ").concat(
        idl_json,
    ).concat(";\n\nexport const IDL: ").concat(exported.as_str()).concat(" = ").concat(
        idl_json,
    ).concat(";\n");
    (output, resolved)
}

} // verus!
