//! What holds of normalisation on every document.

use crate::casing::upper_camel_case;
use crate::emit::{
    export_name, new_artifact, old_artifact, patch_spec, patched_idl, resolved_name,
};
use crate::model::{
    AccountItemModel, DefinedFieldsModel, FieldModel, GenericArgModel, IdlModel, InstructionModel,
    MetadataModel, TypeDefModel, TypeDefTyModel, TypeModel, VariantModel,
};
use crate::normalize::{
    rename_account_item, rename_account_items, rename_accounts, rename_arg, rename_consts,
    rename_errors, rename_events, rename_field, rename_fields, rename_generic_params,
    rename_idl, rename_instruction, rename_instructions, rename_opt_fields, rename_type,
    rename_type_def, rename_type_def_ty, rename_type_defs, rename_types, rename_variant,
    rename_variants,
};
use vstd::prelude::*;

verus! {

/// The renaming that blanks every name.
pub open spec fn blank() -> spec_fn(Seq<char>) -> Seq<char> {
    |s: Seq<char>| Seq::<char>::empty()
}

/// The shape of a document: all of it but the names.
pub open spec fn shape_of(m: IdlModel) -> IdlModel {
    rename_idl(m, blank())
}

proof fn lemma_type_composes(
    m: TypeModel,
    f: spec_fn(Seq<char>) -> Seq<char>,
    g: spec_fn(Seq<char>) -> Seq<char>,
    h: spec_fn(Seq<char>) -> Seq<char>,
)
    requires
        forall|s: Seq<char>| #[trigger] g(f(s)) == h(s),
    ensures
        rename_type(rename_type(m, f), g) == rename_type(m, h),
    decreases m,
{
    match m {
        TypeModel::Primitive(_) => {},
        TypeModel::Optional(inner) => lemma_type_composes(*inner, f, g, h),
        TypeModel::List(inner) => lemma_type_composes(*inner, f, g, h),
        TypeModel::Array(inner, _) => lemma_type_composes(*inner, f, g, h),
        TypeModel::Defined { name, generics } => {
            assert forall|i: int| 0 <= i < generics.len() implies rename_arg(
                rename_arg(generics[i], f),
                g,
            ) == rename_arg(generics[i], h) by {
                lemma_arg_composes(generics[i], f, g, h);
            }
            assert(rename_type(rename_type(m, f), g)->generics =~= rename_type(m, h)->generics);
        },
        TypeModel::Generic(_) => {},
    }
}

proof fn lemma_arg_composes(
    a: GenericArgModel,
    f: spec_fn(Seq<char>) -> Seq<char>,
    g: spec_fn(Seq<char>) -> Seq<char>,
    h: spec_fn(Seq<char>) -> Seq<char>,
)
    requires
        forall|s: Seq<char>| #[trigger] g(f(s)) == h(s),
    ensures
        rename_arg(rename_arg(a, f), g) == rename_arg(a, h),
    decreases a,
{
    match a {
        GenericArgModel::Type { ty } => lemma_type_composes(ty, f, g, h),
        GenericArgModel::Const { .. } => {},
    }
}

proof fn lemma_types_compose(
    s: Seq<TypeModel>,
    f: spec_fn(Seq<char>) -> Seq<char>,
    g: spec_fn(Seq<char>) -> Seq<char>,
    h: spec_fn(Seq<char>) -> Seq<char>,
)
    requires
        forall|s: Seq<char>| #[trigger] g(f(s)) == h(s),
    ensures
        rename_types(rename_types(s, f), g) == rename_types(s, h),
{
    assert forall|i: int| 0 <= i < s.len() implies rename_type(rename_type(s[i], f), g) == rename_type(
        s[i],
        h,
    ) by {
        lemma_type_composes(s[i], f, g, h);
    }
    assert(rename_types(rename_types(s, f), g) =~= rename_types(s, h));
}

proof fn lemma_fields_compose(
    s: Seq<FieldModel>,
    f: spec_fn(Seq<char>) -> Seq<char>,
    g: spec_fn(Seq<char>) -> Seq<char>,
    h: spec_fn(Seq<char>) -> Seq<char>,
)
    requires
        forall|s: Seq<char>| #[trigger] g(f(s)) == h(s),
    ensures
        rename_fields(rename_fields(s, f), g) == rename_fields(s, h),
{
    assert forall|i: int| 0 <= i < s.len() implies rename_field(rename_field(s[i], f), g) == rename_field(
        s[i],
        h,
    ) by {
        lemma_type_composes(s[i].ty, f, g, h);
    }
    assert(rename_fields(rename_fields(s, f), g) =~= rename_fields(s, h));
}

proof fn lemma_opt_fields_compose(
    o: Option<DefinedFieldsModel>,
    f: spec_fn(Seq<char>) -> Seq<char>,
    g: spec_fn(Seq<char>) -> Seq<char>,
    h: spec_fn(Seq<char>) -> Seq<char>,
)
    requires
        forall|s: Seq<char>| #[trigger] g(f(s)) == h(s),
    ensures
        rename_opt_fields(rename_opt_fields(o, f), g) == rename_opt_fields(o, h),
{
    match o {
        Some(DefinedFieldsModel::Named(fields)) => lemma_fields_compose(fields, f, g, h),
        Some(DefinedFieldsModel::Tuple(tys)) => lemma_types_compose(tys, f, g, h),
        None => {},
    }
}

proof fn lemma_variants_compose(
    s: Seq<VariantModel>,
    f: spec_fn(Seq<char>) -> Seq<char>,
    g: spec_fn(Seq<char>) -> Seq<char>,
    h: spec_fn(Seq<char>) -> Seq<char>,
)
    requires
        forall|s: Seq<char>| #[trigger] g(f(s)) == h(s),
    ensures
        rename_variants(rename_variants(s, f), g) == rename_variants(s, h),
{
    assert forall|i: int| 0 <= i < s.len() implies rename_variant(rename_variant(s[i], f), g) == rename_variant(
        s[i],
        h,
    ) by {
        lemma_opt_fields_compose(s[i].fields, f, g, h);
    }
    assert(rename_variants(rename_variants(s, f), g) =~= rename_variants(s, h));
}

proof fn lemma_type_def_composes(
    m: TypeDefModel,
    f: spec_fn(Seq<char>) -> Seq<char>,
    g: spec_fn(Seq<char>) -> Seq<char>,
    h: spec_fn(Seq<char>) -> Seq<char>,
)
    requires
        forall|s: Seq<char>| #[trigger] g(f(s)) == h(s),
    ensures
        rename_type_def(rename_type_def(m, f), g) == rename_type_def(m, h),
{
    match m.ty {
        TypeDefTyModel::Struct { fields } => lemma_opt_fields_compose(fields, f, g, h),
        TypeDefTyModel::Enum { variants } => lemma_variants_compose(variants, f, g, h),
        TypeDefTyModel::Type { alias } => lemma_type_composes(alias, f, g, h),
    }
    assert(rename_type_def_ty(rename_type_def_ty(m.ty, f), g) == rename_type_def_ty(m.ty, h));
    assert(rename_generic_params(rename_generic_params(m.generics, f), g)
        =~= rename_generic_params(m.generics, h));
}

proof fn lemma_type_defs_compose(
    s: Seq<TypeDefModel>,
    f: spec_fn(Seq<char>) -> Seq<char>,
    g: spec_fn(Seq<char>) -> Seq<char>,
    h: spec_fn(Seq<char>) -> Seq<char>,
)
    requires
        forall|s: Seq<char>| #[trigger] g(f(s)) == h(s),
    ensures
        rename_type_defs(rename_type_defs(s, f), g) == rename_type_defs(s, h),
{
    assert forall|i: int| 0 <= i < s.len() implies rename_type_def(rename_type_def(s[i], f), g) == rename_type_def(
        s[i],
        h,
    ) by {
        lemma_type_def_composes(s[i], f, g, h);
    }
    assert(rename_type_defs(rename_type_defs(s, f), g) =~= rename_type_defs(s, h));
}

proof fn lemma_account_item_composes(
    m: AccountItemModel,
    f: spec_fn(Seq<char>) -> Seq<char>,
    g: spec_fn(Seq<char>) -> Seq<char>,
    h: spec_fn(Seq<char>) -> Seq<char>,
)
    requires
        forall|s: Seq<char>| #[trigger] g(f(s)) == h(s),
    ensures
        rename_account_item(rename_account_item(m, f), g) == rename_account_item(m, h),
    decreases m,
{
    match m {
        AccountItemModel::Composite { name, accounts } => {
            assert forall|i: int| 0 <= i < accounts.len() implies rename_account_item(
                rename_account_item(accounts[i], f),
                g,
            ) == rename_account_item(accounts[i], h) by {
                lemma_account_item_composes(accounts[i], f, g, h);
            }
            assert(rename_account_item(rename_account_item(m, f), g)->Composite_accounts
                =~= rename_account_item(m, h)->Composite_accounts);
        },
        AccountItemModel::Single { .. } => {},
    }
}

proof fn lemma_account_items_compose(
    s: Seq<AccountItemModel>,
    f: spec_fn(Seq<char>) -> Seq<char>,
    g: spec_fn(Seq<char>) -> Seq<char>,
    h: spec_fn(Seq<char>) -> Seq<char>,
)
    requires
        forall|s: Seq<char>| #[trigger] g(f(s)) == h(s),
    ensures
        rename_account_items(rename_account_items(s, f), g) == rename_account_items(s, h),
{
    assert forall|i: int| 0 <= i < s.len() implies rename_account_item(rename_account_item(s[i], f), g) == rename_account_item(
        s[i],
        h,
    ) by {
        lemma_account_item_composes(s[i], f, g, h);
    }
    assert(rename_account_items(rename_account_items(s, f), g) =~= rename_account_items(s, h));
}

proof fn lemma_instruction_composes(
    m: InstructionModel,
    f: spec_fn(Seq<char>) -> Seq<char>,
    g: spec_fn(Seq<char>) -> Seq<char>,
    h: spec_fn(Seq<char>) -> Seq<char>,
)
    requires
        forall|s: Seq<char>| #[trigger] g(f(s)) == h(s),
    ensures
        rename_instruction(rename_instruction(m, f), g) == rename_instruction(m, h),
{
    lemma_fields_compose(m.args, f, g, h);
    lemma_account_items_compose(m.accounts, f, g, h);
}

proof fn lemma_instructions_compose(
    s: Seq<InstructionModel>,
    f: spec_fn(Seq<char>) -> Seq<char>,
    g: spec_fn(Seq<char>) -> Seq<char>,
    h: spec_fn(Seq<char>) -> Seq<char>,
)
    requires
        forall|s: Seq<char>| #[trigger] g(f(s)) == h(s),
    ensures
        rename_instructions(rename_instructions(s, f), g) == rename_instructions(s, h),
{
    assert forall|i: int| 0 <= i < s.len() implies rename_instruction(rename_instruction(s[i], f), g) == rename_instruction(
        s[i],
        h,
    ) by {
        lemma_instruction_composes(s[i], f, g, h);
    }
    assert(rename_instructions(rename_instructions(s, f), g) =~= rename_instructions(s, h));
}

/// Renaming composes: renaming with `f` and then with `g` is renaming once
/// with a function that does on every name what `f` and then `g` do.
pub proof fn lemma_rename_composes(
    m: IdlModel,
    f: spec_fn(Seq<char>) -> Seq<char>,
    g: spec_fn(Seq<char>) -> Seq<char>,
    h: spec_fn(Seq<char>) -> Seq<char>,
)
    requires
        forall|s: Seq<char>| #[trigger] g(f(s)) == h(s),
    ensures
        rename_idl(rename_idl(m, f), g) == rename_idl(m, h),
{
    lemma_instructions_compose(m.instructions, f, g, h);
    lemma_type_defs_compose(m.types, f, g, h);
    assert(rename_accounts(rename_accounts(m.accounts, f), g) =~= rename_accounts(m.accounts, h));
    assert(rename_events(rename_events(m.events, f), g) =~= rename_events(m.events, h));
    assert(rename_errors(rename_errors(m.errors, f), g) =~= rename_errors(m.errors, h));
    assert(rename_consts(rename_consts(m.constants, f), g) =~= rename_consts(m.constants, h));
}

/// Renaming changes names and nothing else: a document and its renaming
/// have the same shape. Every sequence keeps its length and order, every
/// node its variant, and every value that is no name stays as it was.
pub proof fn lemma_rename_keeps_shape(m: IdlModel, f: spec_fn(Seq<char>) -> Seq<char>)
    ensures
        shape_of(rename_idl(m, f)) == shape_of(m),
        rename_idl(m, f).metadata == m.metadata,
        rename_idl(m, f).instructions.len() == m.instructions.len(),
        rename_idl(m, f).accounts.len() == m.accounts.len(),
        rename_idl(m, f).events.len() == m.events.len(),
        rename_idl(m, f).errors.len() == m.errors.len(),
        rename_idl(m, f).types.len() == m.types.len(),
        rename_idl(m, f).constants.len() == m.constants.len(),
{
    lemma_rename_composes(m, f, blank(), blank());
}

/// Renaming keeps every item in its place: the item at each index of a
/// top-level sequence is the renaming of the item that stood at that index.
pub proof fn lemma_rename_keeps_order(m: IdlModel, f: spec_fn(Seq<char>) -> Seq<char>)
    ensures
        forall|i: int|
            0 <= i < m.instructions.len() ==> #[trigger] rename_idl(m, f).instructions[i]
                == rename_instruction(m.instructions[i], f),
        forall|i: int|
            0 <= i < m.accounts.len() ==> (#[trigger] rename_idl(m, f).accounts[i]).name == f(
                m.accounts[i].name,
            ),
        forall|i: int|
            0 <= i < m.events.len() ==> (#[trigger] rename_idl(m, f).events[i]).name == f(
                m.events[i].name,
            ),
        forall|i: int|
            0 <= i < m.errors.len() ==> (#[trigger] rename_idl(m, f).errors[i]).name == f(
                m.errors[i].name,
            ),
        forall|i: int|
            0 <= i < m.types.len() ==> #[trigger] rename_idl(m, f).types[i] == rename_type_def(
                m.types[i],
                f,
            ),
        forall|i: int|
            0 <= i < m.constants.len() ==> (#[trigger] rename_idl(m, f).constants[i]).name == f(
                m.constants[i].name,
            ),
{
}

/// The renaming that applies `f` to a name and then `f` again.
pub open spec fn twice(f: spec_fn(Seq<char>) -> Seq<char>) -> spec_fn(Seq<char>) -> Seq<char> {
    |s: Seq<char>| f(f(s))
}

/// Renaming a document a second time with `f` gives the document in which
/// `f` was applied twice to every name. So the second renaming changes
/// nothing exactly where `f` changes no renamed name of the document.
pub proof fn lemma_rename_twice(m: IdlModel, f: spec_fn(Seq<char>) -> Seq<char>)
    ensures
        rename_idl(rename_idl(m, f), f) == rename_idl(m, twice(f)),
        shape_of(rename_idl(rename_idl(m, f), f)) == shape_of(m),
{
    lemma_rename_composes(m, f, f, twice(f));
    lemma_rename_composes(m, twice(f), blank(), blank());
}

/// Renaming a type reference a second time with `f` gives the reference in
/// which `f` was applied twice to every name, at every depth.
pub proof fn lemma_rename_type_twice(m: TypeModel, f: spec_fn(Seq<char>) -> Seq<char>)
    ensures
        rename_type(rename_type(m, f), f) == rename_type(m, twice(f)),
{
    lemma_type_composes(m, f, f, twice(f));
}

/// The export name comes from the caller's choice wherever there is one,
/// whatever the document declares, and is in every case the UpperCamelCase
/// form of the name that is handed back beside the artifact.
pub proof fn lemma_override_takes_precedence(
    chosen: Seq<char>,
    declared: Seq<char>,
    other: Seq<char>,
)
    ensures
        resolved_name(Some(chosen), declared) == chosen,
        export_name(Some(chosen), declared) == export_name(Some(chosen), other),
        export_name(Some(chosen), declared) == upper_camel_case(chosen),
        export_name(None, declared) == upper_camel_case(declared),
        resolved_name(None, declared) == declared,
{
}

/// Where `f` applied twice to a name gives what it gives applied once,
/// renaming a document twice with `f` gives what renaming it once gives.
pub proof fn lemma_rename_idempotent(m: IdlModel, f: spec_fn(Seq<char>) -> Seq<char>)
    requires
        forall|s: Seq<char>| #[trigger] f(f(s)) == f(s),
    ensures
        rename_idl(rename_idl(m, f), f) == rename_idl(m, f),
{
    lemma_rename_composes(m, f, f, f);
}

/// Renaming a type reference keeps its shape, at every depth.
pub proof fn lemma_rename_type_keeps_shape(m: TypeModel, f: spec_fn(Seq<char>) -> Seq<char>)
    ensures
        rename_type(rename_type(m, f), blank()) == rename_type(m, blank()),
{
    lemma_type_composes(m, f, blank(), blank());
}

/// Renaming an account item keeps its shape, at every depth of nesting.
pub proof fn lemma_rename_account_item_keeps_shape(
    m: AccountItemModel,
    f: spec_fn(Seq<char>) -> Seq<char>,
)
    ensures
        rename_account_item(rename_account_item(m, f), blank()) == rename_account_item(
            m,
            blank(),
        ),
{
    lemma_account_item_composes(m, f, blank(), blank());
}

/// With neither a description nor a repository given, patching changes
/// nothing.
pub proof fn lemma_patch_without_input(m: MetadataModel)
    ensures
        patch_spec(m, None, None) == m,
{
}

/// Patching reaches the metadata block alone and renaming leaves that block
/// alone, so the two can be done in either order and a patched string is
/// never case-converted.
pub proof fn lemma_patch_survives_rename(
    m: IdlModel,
    description: Option<Seq<char>>,
    repository: Option<Seq<char>>,
    f: spec_fn(Seq<char>) -> Seq<char>,
)
    ensures
        rename_idl(patched_idl(m, description, repository), f).metadata == patch_spec(
            m.metadata,
            description,
            repository,
        ),
        description is Some ==> rename_idl(
            patched_idl(m, description, repository),
            f,
        ).metadata.description == description,
        repository is Some ==> rename_idl(
            patched_idl(m, description, repository),
            f,
        ).metadata.repository == repository,
        patched_idl(m, None, None) == m,
        rename_idl(patched_idl(m, description, repository), f) == patched_idl(
            rename_idl(m, f),
            description,
            repository,
        ),
{
}

/// Every artifact ends with a newline, whatever the name and the document.
pub proof fn lemma_artifact_ends_with_newline(exported: Seq<char>, json: Seq<char>)
    ensures
        new_artifact(exported, json).len() >= 2,
        new_artifact(exported, json).last() == '\n',
        old_artifact(exported, json).len() >= 2,
        old_artifact(exported, json).last() == '\n',
{
    reveal_strlit(";\n");
}

/// The artifact for a current-shape document holds the export name and the
/// serialised document as they were given, character for character, between
/// its fixed parts.
pub proof fn lemma_new_artifact_embeds_literal(exported: Seq<char>, json: Seq<char>)
    ensures
        new_artifact(exported, json).len() == 17 + exported.len() + json.len(),
        new_artifact(exported, json).subrange(12, 12 + exported.len() as int) == exported,
        new_artifact(exported, json).subrange(
            15 + exported.len() as int,
            15 + exported.len() as int + json.len() as int,
        ) == json,
{
    reveal_strlit("export type ");
    reveal_strlit(" = ");
    reveal_strlit(";\n");
    let a = new_artifact(exported, json);
    assert(a.subrange(12, 12 + exported.len() as int) =~= exported);
    assert(a.subrange(15 + exported.len() as int, 15 + exported.len() as int + json.len() as int) =~= json);
}

} // verus!
