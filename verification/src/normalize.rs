//! Rewriting every declared identifier of a document to lowerCamelCase.

use crate::casing::{casing, lower_camel, lower_camel_case};
use crate::laws::{lemma_rename_keeps_shape, shape_of};
use crate::model::{
    account_item_model, account_item_models, account_models, const_models, error_models,
    event_models, field_models, generic_param_models, instruction_models, opt_fields_model,
    texts, type_def_models, type_model, type_models, variant_models, AccountItemModel,
    AccountModel, ConstModel, DefinedFieldsModel, ErrorCodeModel, EventModel, FieldModel,
    GenericArgModel, Idl, IdlAccount, IdlConst, IdlDefinedFields, IdlEnumVariant, IdlErrorCode,
    IdlEvent, IdlField, IdlGenericArg, IdlInstruction, IdlInstructionAccountItem, IdlModel,
    IdlType, IdlTypeDef, IdlTypeDefGeneric, IdlTypeDefTy, InstructionModel,
    TypeDefGenericModel, TypeDefModel, TypeDefTyModel, TypeModel, VariantModel,
};
use vstd::prelude::*;

verus! {

/// `m` with `f` applied to the name of the defined or generic type it refers
/// to, and to those inside it. Array lengths and const arguments stay.
pub open spec fn rename_type(m: TypeModel, f: spec_fn(Seq<char>) -> Seq<char>) -> TypeModel
    decreases m,
{
    match m {
        TypeModel::Primitive(p) => TypeModel::Primitive(p),
        TypeModel::Optional(inner) => TypeModel::Optional(Box::new(rename_type(*inner, f))),
        TypeModel::List(inner) => TypeModel::List(Box::new(rename_type(*inner, f))),
        TypeModel::Array(inner, len) => TypeModel::Array(Box::new(rename_type(*inner, f)), len),
        TypeModel::Defined { name, generics } => TypeModel::Defined {
            name: f(name),
            generics: Seq::new(
                generics.len(),
                |i: int|
                    if 0 <= i < generics.len() {
                        rename_arg(generics[i], f)
                    } else {
                        arbitrary()
                    },
            ),
        },
        TypeModel::Generic(name) => TypeModel::Generic(f(name)),
    }
}

/// A generic argument with `f` applied to the names inside it, where it is a
/// type; a const argument stays.
pub open spec fn rename_arg(a: GenericArgModel, f: spec_fn(Seq<char>) -> Seq<char>) -> GenericArgModel
    decreases a,
{
    match a {
        GenericArgModel::Type { ty } => GenericArgModel::Type { ty: rename_type(ty, f) },
        GenericArgModel::Const { value } => GenericArgModel::Const { value },
    }
}

/// Each item of a sequence renamed with `f`, in order. The functions named in
/// the plural below do the same for the other kinds of node.
pub open spec fn rename_types(s: Seq<TypeModel>, f: spec_fn(Seq<char>) -> Seq<char>) -> Seq<
    TypeModel,
> {
    s.map_values(|t: TypeModel| rename_type(t, f))
}

/// A field with `f` applied to its name and to the names inside its type.
pub open spec fn rename_field(m: FieldModel, f: spec_fn(Seq<char>) -> Seq<char>) -> FieldModel {
    FieldModel { name: f(m.name), ty: rename_type(m.ty, f), ..m }
}

pub open spec fn rename_fields(s: Seq<FieldModel>, f: spec_fn(Seq<char>) -> Seq<char>) -> Seq<
    FieldModel,
> {
    s.map_values(|m: FieldModel| rename_field(m, f))
}

/// A group of fields renamed: named fields by name and type, tuple fields by
/// type.
pub open spec fn rename_defined_fields(
    m: DefinedFieldsModel,
    f: spec_fn(Seq<char>) -> Seq<char>,
) -> DefinedFieldsModel {
    match m {
        DefinedFieldsModel::Named(fields) => DefinedFieldsModel::Named(rename_fields(fields, f)),
        DefinedFieldsModel::Tuple(tys) => DefinedFieldsModel::Tuple(rename_types(tys, f)),
    }
}

pub open spec fn rename_opt_fields(
    o: Option<DefinedFieldsModel>,
    f: spec_fn(Seq<char>) -> Seq<char>,
) -> Option<DefinedFieldsModel> {
    match o {
        Some(m) => Some(rename_defined_fields(m, f)),
        None => None,
    }
}

/// A variant with `f` applied to its name and to its fields, where it has any.
pub open spec fn rename_variant(m: VariantModel, f: spec_fn(Seq<char>) -> Seq<char>) -> VariantModel {
    VariantModel { name: f(m.name), fields: rename_opt_fields(m.fields, f) }
}

pub open spec fn rename_variants(s: Seq<VariantModel>, f: spec_fn(Seq<char>) -> Seq<char>) -> Seq<
    VariantModel,
> {
    s.map_values(|m: VariantModel| rename_variant(m, f))
}

/// The body of a type definition renamed with `f`.
pub open spec fn rename_type_def_ty(
    m: TypeDefTyModel,
    f: spec_fn(Seq<char>) -> Seq<char>,
) -> TypeDefTyModel {
    match m {
        TypeDefTyModel::Struct { fields } => TypeDefTyModel::Struct {
            fields: rename_opt_fields(fields, f),
        },
        TypeDefTyModel::Enum { variants } => TypeDefTyModel::Enum {
            variants: rename_variants(variants, f),
        },
        TypeDefTyModel::Type { alias } => TypeDefTyModel::Type { alias: rename_type(alias, f) },
    }
}

/// A declared generic with `f` applied to its name; the type tag of a const
/// generic stays.
pub open spec fn rename_generic_param(
    m: TypeDefGenericModel,
    f: spec_fn(Seq<char>) -> Seq<char>,
) -> TypeDefGenericModel {
    match m {
        TypeDefGenericModel::Type { name } => TypeDefGenericModel::Type { name: f(name) },
        TypeDefGenericModel::Const { name, ty } => TypeDefGenericModel::Const { name: f(name), ty },
    }
}

pub open spec fn rename_generic_params(
    s: Seq<TypeDefGenericModel>,
    f: spec_fn(Seq<char>) -> Seq<char>,
) -> Seq<TypeDefGenericModel> {
    s.map_values(|m: TypeDefGenericModel| rename_generic_param(m, f))
}

/// A type definition with `f` applied to its name, its generics and its body.
pub open spec fn rename_type_def(m: TypeDefModel, f: spec_fn(Seq<char>) -> Seq<char>) -> TypeDefModel {
    TypeDefModel {
        name: f(m.name),
        generics: rename_generic_params(m.generics, f),
        ty: rename_type_def_ty(m.ty, f),
        ..m
    }
}

pub open spec fn rename_type_defs(s: Seq<TypeDefModel>, f: spec_fn(Seq<char>) -> Seq<char>) -> Seq<
    TypeDefModel,
> {
    s.map_values(|m: TypeDefModel| rename_type_def(m, f))
}

/// An account item with `f` applied to its name and, depth first and in
/// order, to the names of the items nested in it.
pub open spec fn rename_account_item(
    m: AccountItemModel,
    f: spec_fn(Seq<char>) -> Seq<char>,
) -> AccountItemModel
    decreases m,
{
    match m {
        AccountItemModel::Composite { name, accounts } => AccountItemModel::Composite {
            name: f(name),
            accounts: Seq::new(
                accounts.len(),
                |i: int|
                    if 0 <= i < accounts.len() {
                        rename_account_item(accounts[i], f)
                    } else {
                        arbitrary()
                    },
            ),
        },
        AccountItemModel::Single {
            name,
            docs,
            writable,
            signer,
            optional,
            address,
            pda,
            relations,
        } => AccountItemModel::Single {
            name: f(name),
            docs,
            writable,
            signer,
            optional,
            address,
            pda,
            relations,
        },
    }
}

pub open spec fn rename_account_items(
    s: Seq<AccountItemModel>,
    f: spec_fn(Seq<char>) -> Seq<char>,
) -> Seq<AccountItemModel> {
    s.map_values(|m: AccountItemModel| rename_account_item(m, f))
}

/// An instruction with `f` applied to its name, its arguments and its account
/// items; its return type stays.
pub open spec fn rename_instruction(
    m: InstructionModel,
    f: spec_fn(Seq<char>) -> Seq<char>,
) -> InstructionModel {
    InstructionModel {
        name: f(m.name),
        accounts: rename_account_items(m.accounts, f),
        args: rename_fields(m.args, f),
        ..m
    }
}

pub open spec fn rename_instructions(
    s: Seq<InstructionModel>,
    f: spec_fn(Seq<char>) -> Seq<char>,
) -> Seq<InstructionModel> {
    s.map_values(|m: InstructionModel| rename_instruction(m, f))
}

/// Each name of a sequence with `f` applied, in order.
pub open spec fn rename_names(s: Seq<Seq<char>>, f: spec_fn(Seq<char>) -> Seq<char>) -> Seq<
    Seq<char>,
> {
    s.map_values(|n: Seq<char>| f(n))
}

/// An account type with `f` applied to its name.
pub open spec fn rename_account(m: AccountModel, f: spec_fn(Seq<char>) -> Seq<char>) -> AccountModel {
    AccountModel { name: f(m.name), discriminator: m.discriminator }
}

pub open spec fn rename_accounts(s: Seq<AccountModel>, f: spec_fn(Seq<char>) -> Seq<char>) -> Seq<
    AccountModel,
> {
    s.map_values(|m: AccountModel| rename_account(m, f))
}

/// An event with `f` applied to its name.
pub open spec fn rename_event(m: EventModel, f: spec_fn(Seq<char>) -> Seq<char>) -> EventModel {
    EventModel { name: f(m.name), discriminator: m.discriminator }
}

pub open spec fn rename_events(s: Seq<EventModel>, f: spec_fn(Seq<char>) -> Seq<char>) -> Seq<
    EventModel,
> {
    s.map_values(|m: EventModel| rename_event(m, f))
}

/// An error with `f` applied to its name; its code and message stay.
pub open spec fn rename_error(m: ErrorCodeModel, f: spec_fn(Seq<char>) -> Seq<char>) -> ErrorCodeModel {
    ErrorCodeModel { code: m.code, name: f(m.name), msg: m.msg }
}

pub open spec fn rename_errors(s: Seq<ErrorCodeModel>, f: spec_fn(Seq<char>) -> Seq<char>) -> Seq<
    ErrorCodeModel,
> {
    s.map_values(|m: ErrorCodeModel| rename_error(m, f))
}

/// A constant with `f` applied to its name; its type and value stay.
pub open spec fn rename_const(m: ConstModel, f: spec_fn(Seq<char>) -> Seq<char>) -> ConstModel {
    ConstModel { name: f(m.name), ..m }
}

pub open spec fn rename_consts(s: Seq<ConstModel>, f: spec_fn(Seq<char>) -> Seq<char>) -> Seq<
    ConstModel,
> {
    s.map_values(|m: ConstModel| rename_const(m, f))
}

/// A document with `f` applied to every declared identifier. The metadata
/// block holds no identifier and stays as it is.
pub open spec fn rename_idl(m: IdlModel, f: spec_fn(Seq<char>) -> Seq<char>) -> IdlModel {
    IdlModel {
        address: m.address,
        metadata: m.metadata,
        docs: m.docs,
        instructions: rename_instructions(m.instructions, f),
        accounts: rename_accounts(m.accounts, f),
        events: rename_events(m.events, f),
        errors: rename_errors(m.errors, f),
        types: rename_type_defs(m.types, f),
        constants: rename_consts(m.constants, f),
    }
}

/// Rewrites the names inside a generic argument that is a type; a const
/// argument names no identifier and is left as it is.
pub fn convert_generic_arg(arg: &mut IdlGenericArg)
    ensures
        final(arg)@ == rename_arg(old(arg)@, casing()),
    decreases *old(arg),
{
    match arg {
        IdlGenericArg::Type { ty } => {
            convert_idl_type_names(ty);
        },
        IdlGenericArg::Const { .. } => {},
    }
}

/// Rewrites the names inside a type reference, at every depth. Primitive
/// tags, array lengths and const arguments are left as they are.
pub fn convert_idl_type_names(idl_type: &mut IdlType)
    ensures
        final(idl_type)@ == rename_type(old(idl_type)@, casing()),
    decreases *old(idl_type),
{
    match idl_type {
        IdlType::Optional(inner) => {
            convert_idl_type_names(inner);
        },
        IdlType::List(inner) => {
            convert_idl_type_names(inner);
        },
        IdlType::Array(inner, _) => {
            convert_idl_type_names(inner);
        },
        IdlType::Defined { name, generics } => {
            *name = lower_camel(name.as_str());
            let ghost before = *generics;
            let mut i: usize = 0;
            while i < generics.len()
                invariant
                    (*old(idl_type)) is Defined,
                    (*old(idl_type))->generics == before,
                    i <= generics.len(),
                    generics.len() == before.len(),
                    forall|j: int|
                        0 <= j < i ==> (#[trigger] generics[j])@ == rename_arg(
                            before[j]@,
                            casing(),
                        ),
                    forall|j: int| i <= j < generics.len() ==> generics[j] == before[j],
                decreases generics.len() - i,
            {
                proof {
                    assert(decreases_to!(*old(idl_type) => (*old(idl_type))->generics));
                    assert(decreases_to!(before => before[i as int]));
                    assert(generics[i as int] == before[i as int]);
                }
                convert_generic_arg(&mut generics[i]);
                i += 1;
            }
            proof {
                assert(type_model(IdlType::Defined { name: *name, generics: *generics })->generics
                    =~= rename_type(old(idl_type)@, casing())->generics);
            }
        },
        IdlType::Generic(name) => {
            *name = lower_camel(name.as_str());
        },
        IdlType::Primitive(_) => {},
    }
}

/// Rewrites the names inside each type reference, in order.
fn convert_type_list(items: &mut Vec<IdlType>)
    ensures
        type_models(final(items)@) == rename_types(type_models(old(items)@), casing()),
{
    let mut i: usize = 0;
    while i < items.len()
        invariant
            i <= items.len(),
            items.len() == old(items).len(),
            forall|j: int| 0 <= j < i ==> (#[trigger] items[j])@ == rename_type(old(items)[j]@, casing()),
            forall|j: int| i <= j < items.len() ==> items[j] == old(items)[j],
        decreases items.len() - i,
    {
        convert_idl_type_names(&mut items[i]);
        i += 1;
    }
    proof {
        assert(type_models(items@) =~= rename_types(type_models(old(items)@), casing()));
    }
}

/// Rewrites a field's name and the names inside its type.
pub fn convert_field(field: &mut IdlField)
    ensures
        final(field)@ == rename_field(old(field)@, casing()),
{
    field.name = lower_camel(field.name.as_str());
    convert_idl_type_names(&mut field.ty);
}

/// Rewrites each field, in order.
fn convert_field_list(items: &mut Vec<IdlField>)
    ensures
        field_models(final(items)@) == rename_fields(field_models(old(items)@), casing()),
{
    let mut i: usize = 0;
    while i < items.len()
        invariant
            i <= items.len(),
            items.len() == old(items).len(),
            forall|j: int| 0 <= j < i ==> (#[trigger] items[j])@ == rename_field(old(items)[j]@, casing()),
            forall|j: int| i <= j < items.len() ==> items[j] == old(items)[j],
        decreases items.len() - i,
    {
        convert_field(&mut items[i]);
        i += 1;
    }
    proof {
        assert(field_models(items@) =~= rename_fields(field_models(old(items)@), casing()));
    }
}

/// Rewrites the fields of a struct or variant: named fields by name and
/// type, tuple fields by type.
pub fn convert_defined_fields(fields: &mut IdlDefinedFields)
    ensures
        final(fields)@ == rename_defined_fields(old(fields)@, casing()),
{
    match fields {
        IdlDefinedFields::Named(named_fields) => {
            convert_field_list(named_fields);
        },
        IdlDefinedFields::Tuple(tuple_types) => {
            convert_type_list(tuple_types);
        },
    }
}

fn convert_opt_fields(fields: &mut Option<IdlDefinedFields>)
    ensures
        opt_fields_model(*final(fields)) == rename_opt_fields(
            opt_fields_model(*old(fields)),
            casing(),
        ),
{
    match fields {
        Some(f) => {
            convert_defined_fields(f);
        },
        None => {},
    }
}

/// Rewrites a variant's name and, where it carries fields, those.
pub fn convert_enum_variant(variant: &mut IdlEnumVariant)
    ensures
        final(variant)@ == rename_variant(old(variant)@, casing()),
{
    variant.name = lower_camel(variant.name.as_str());
    convert_opt_fields(&mut variant.fields);
}

/// Rewrites each variant, in order.
fn convert_variant_list(items: &mut Vec<IdlEnumVariant>)
    ensures
        variant_models(final(items)@) == rename_variants(variant_models(old(items)@), casing()),
{
    let mut i: usize = 0;
    while i < items.len()
        invariant
            i <= items.len(),
            items.len() == old(items).len(),
            forall|j: int| 0 <= j < i ==> (#[trigger] items[j])@ == rename_variant(old(items)[j]@, casing()),
            forall|j: int| i <= j < items.len() ==> items[j] == old(items)[j],
        decreases items.len() - i,
    {
        convert_enum_variant(&mut items[i]);
        i += 1;
    }
    proof {
        assert(variant_models(items@) =~= rename_variants(variant_models(old(items)@), casing()));
    }
}

/// Rewrites the body of a type definition.
pub fn convert_type_def_ty(ty: &mut IdlTypeDefTy)
    ensures
        final(ty)@ == rename_type_def_ty(old(ty)@, casing()),
{
    match ty {
        IdlTypeDefTy::Struct { fields } => {
            convert_opt_fields(fields);
        },
        IdlTypeDefTy::Enum { variants } => {
            convert_variant_list(variants);
        },
        IdlTypeDefTy::Type { alias } => {
            convert_idl_type_names(alias);
        },
    }
}

/// Rewrites the name of a declared generic; the type tag of a const
/// generic is left as it is.
pub fn convert_type_def_generic(generic: &mut IdlTypeDefGeneric)
    ensures
        final(generic)@ == rename_generic_param(old(generic)@, casing()),
{
    match generic {
        IdlTypeDefGeneric::Type { name } => {
            *name = lower_camel(name.as_str());
        },
        IdlTypeDefGeneric::Const { name, .. } => {
            *name = lower_camel(name.as_str());
        },
    }
}

/// Rewrites each declared generic, in order.
fn convert_generic_param_list(items: &mut Vec<IdlTypeDefGeneric>)
    ensures
        generic_param_models(final(items)@) == rename_generic_params(generic_param_models(old(items)@), casing()),
{
    let mut i: usize = 0;
    while i < items.len()
        invariant
            i <= items.len(),
            items.len() == old(items).len(),
            forall|j: int| 0 <= j < i ==> (#[trigger] items[j])@ == rename_generic_param(old(items)[j]@, casing()),
            forall|j: int| i <= j < items.len() ==> items[j] == old(items)[j],
        decreases items.len() - i,
    {
        convert_type_def_generic(&mut items[i]);
        i += 1;
    }
    proof {
        assert(generic_param_models(items@) =~= rename_generic_params(generic_param_models(old(items)@), casing()));
    }
}

/// Rewrites a type definition: its name, its body and its generics.
pub fn convert_type_def(type_def: &mut IdlTypeDef)
    ensures
        final(type_def)@ == rename_type_def(old(type_def)@, casing()),
{
    type_def.name = lower_camel(type_def.name.as_str());
    convert_type_def_ty(&mut type_def.ty);
    convert_generic_param_list(&mut type_def.generics);
}

/// Rewrites each type definition, in order.
fn convert_type_def_list(items: &mut Vec<IdlTypeDef>)
    ensures
        type_def_models(final(items)@) == rename_type_defs(type_def_models(old(items)@), casing()),
{
    let mut i: usize = 0;
    while i < items.len()
        invariant
            i <= items.len(),
            items.len() == old(items).len(),
            forall|j: int| 0 <= j < i ==> (#[trigger] items[j])@ == rename_type_def(old(items)[j]@, casing()),
            forall|j: int| i <= j < items.len() ==> items[j] == old(items)[j],
        decreases items.len() - i,
    {
        convert_type_def(&mut items[i]);
        i += 1;
    }
    proof {
        assert(type_def_models(items@) =~= rename_type_defs(type_def_models(old(items)@), casing()));
    }
}

/// Rewrites the name of an account item and of every item nested in it,
/// depth first and in order.
pub fn convert_instruction_account_item(item: &mut IdlInstructionAccountItem)
    ensures
        final(item)@ == rename_account_item(old(item)@, casing()),
    decreases *old(item),
{
    match item {
        IdlInstructionAccountItem::Composite { name, accounts } => {
            *name = lower_camel(name.as_str());
            let ghost before = *accounts;
            let mut i: usize = 0;
            while i < accounts.len()
                invariant
                    (*old(item)) is Composite,
                    (*old(item))->Composite_accounts == before,
                    i <= accounts.len(),
                    accounts.len() == before.len(),
                    forall|j: int|
                        0 <= j < i ==> (#[trigger] accounts[j])@ == rename_account_item(
                            before[j]@,
                            casing(),
                        ),
                    forall|j: int| i <= j < accounts.len() ==> accounts[j] == before[j],
                decreases accounts.len() - i,
            {
                proof {
                    assert(decreases_to!(*old(item) => (*old(item))->Composite_accounts));
                    assert(decreases_to!(before => before[i as int]));
                    assert(accounts[i as int] == before[i as int]);
                }
                convert_instruction_account_item(&mut accounts[i]);
                i += 1;
            }
            proof {
                assert(account_item_model(
                    IdlInstructionAccountItem::Composite { name: *name, accounts: *accounts },
                )->Composite_accounts =~= rename_account_item(
                    old(item)@,
                    casing(),
                )->Composite_accounts);
            }
        },
        IdlInstructionAccountItem::Single { name, .. } => {
            *name = lower_camel(name.as_str());
        },
    }
}

/// Rewrites each account item, in order.
fn convert_account_item_list(items: &mut Vec<IdlInstructionAccountItem>)
    ensures
        account_item_models(final(items)@) == rename_account_items(account_item_models(old(items)@), casing()),
{
    let mut i: usize = 0;
    while i < items.len()
        invariant
            i <= items.len(),
            items.len() == old(items).len(),
            forall|j: int| 0 <= j < i ==> (#[trigger] items[j])@ == rename_account_item(old(items)[j]@, casing()),
            forall|j: int| i <= j < items.len() ==> items[j] == old(items)[j],
        decreases items.len() - i,
    {
        convert_instruction_account_item(&mut items[i]);
        i += 1;
    }
    proof {
        assert(account_item_models(items@) =~= rename_account_items(account_item_models(old(items)@), casing()));
    }
}

/// Rewrites an instruction: its name, its arguments and its account items.
pub fn convert_instruction(instruction: &mut IdlInstruction)
    ensures
        final(instruction)@ == rename_instruction(old(instruction)@, casing()),
{
    instruction.name = lower_camel(instruction.name.as_str());
    convert_field_list(&mut instruction.args);
    convert_account_item_list(&mut instruction.accounts);
}

/// Rewrites each instruction, in order.
fn convert_instruction_list(items: &mut Vec<IdlInstruction>)
    ensures
        instruction_models(final(items)@) == rename_instructions(instruction_models(old(items)@), casing()),
{
    let mut i: usize = 0;
    while i < items.len()
        invariant
            i <= items.len(),
            items.len() == old(items).len(),
            forall|j: int| 0 <= j < i ==> (#[trigger] items[j])@ == rename_instruction(old(items)[j]@, casing()),
            forall|j: int| i <= j < items.len() ==> items[j] == old(items)[j],
        decreases items.len() - i,
    {
        convert_instruction(&mut items[i]);
        i += 1;
    }
    proof {
        assert(instruction_models(items@) =~= rename_instructions(instruction_models(old(items)@), casing()));
    }
}

/// Rewrites the name of an account type.
pub fn convert_account(account: &mut IdlAccount)
    ensures
        final(account)@ == rename_account(old(account)@, casing()),
{
    account.name = lower_camel(account.name.as_str());
}

/// Rewrites each account type, in order.
fn convert_account_list(items: &mut Vec<IdlAccount>)
    ensures
        account_models(final(items)@) == rename_accounts(account_models(old(items)@), casing()),
{
    let mut i: usize = 0;
    while i < items.len()
        invariant
            i <= items.len(),
            items.len() == old(items).len(),
            forall|j: int| 0 <= j < i ==> (#[trigger] items[j])@ == rename_account(old(items)[j]@, casing()),
            forall|j: int| i <= j < items.len() ==> items[j] == old(items)[j],
        decreases items.len() - i,
    {
        convert_account(&mut items[i]);
        i += 1;
    }
    proof {
        assert(account_models(items@) =~= rename_accounts(account_models(old(items)@), casing()));
    }
}

/// Rewrites the name of an event.
pub fn convert_event(event: &mut IdlEvent)
    ensures
        final(event)@ == rename_event(old(event)@, casing()),
{
    event.name = lower_camel(event.name.as_str());
}

/// Rewrites each event, in order.
fn convert_event_list(items: &mut Vec<IdlEvent>)
    ensures
        event_models(final(items)@) == rename_events(event_models(old(items)@), casing()),
{
    let mut i: usize = 0;
    while i < items.len()
        invariant
            i <= items.len(),
            items.len() == old(items).len(),
            forall|j: int| 0 <= j < i ==> (#[trigger] items[j])@ == rename_event(old(items)[j]@, casing()),
            forall|j: int| i <= j < items.len() ==> items[j] == old(items)[j],
        decreases items.len() - i,
    {
        convert_event(&mut items[i]);
        i += 1;
    }
    proof {
        assert(event_models(items@) =~= rename_events(event_models(old(items)@), casing()));
    }
}

/// Rewrites the name of an error; its code and message are left as they are.
pub fn convert_error(error: &mut IdlErrorCode)
    ensures
        final(error)@ == rename_error(old(error)@, casing()),
{
    error.name = lower_camel(error.name.as_str());
}

/// Rewrites each error, in order.
fn convert_error_list(items: &mut Vec<IdlErrorCode>)
    ensures
        error_models(final(items)@) == rename_errors(error_models(old(items)@), casing()),
{
    let mut i: usize = 0;
    while i < items.len()
        invariant
            i <= items.len(),
            items.len() == old(items).len(),
            forall|j: int| 0 <= j < i ==> (#[trigger] items[j])@ == rename_error(old(items)[j]@, casing()),
            forall|j: int| i <= j < items.len() ==> items[j] == old(items)[j],
        decreases items.len() - i,
    {
        convert_error(&mut items[i]);
        i += 1;
    }
    proof {
        assert(error_models(items@) =~= rename_errors(error_models(old(items)@), casing()));
    }
}

/// Rewrites the name of a constant; its type and value are left as they are.
pub fn convert_constant(constant: &mut IdlConst)
    ensures
        final(constant)@ == rename_const(old(constant)@, casing()),
{
    constant.name = lower_camel(constant.name.as_str());
}

/// Rewrites each constant, in order.
fn convert_constant_list(items: &mut Vec<IdlConst>)
    ensures
        const_models(final(items)@) == rename_consts(const_models(old(items)@), casing()),
{
    let mut i: usize = 0;
    while i < items.len()
        invariant
            i <= items.len(),
            items.len() == old(items).len(),
            forall|j: int| 0 <= j < i ==> (#[trigger] items[j])@ == rename_const(old(items)[j]@, casing()),
            forall|j: int| i <= j < items.len() ==> items[j] == old(items)[j],
        decreases items.len() - i,
    {
        convert_constant(&mut items[i]);
        i += 1;
    }
    proof {
        assert(const_models(items@) =~= rename_consts(const_models(old(items)@), casing()));
    }
}

/// Rewrites each name of a list, in order.
pub fn convert_names(names: &mut Vec<String>)
    ensures
        texts(final(names)@) == rename_names(texts(old(names)@), casing()),
{
    let mut i: usize = 0;
    while i < names.len()
        invariant
            i <= names.len(),
            names.len() == old(names).len(),
            forall|j: int|
                0 <= j < i ==> (#[trigger] names[j])@ == lower_camel_case(old(names)[j]@),
            forall|j: int| i <= j < names.len() ==> names[j] == old(names)[j],
        decreases names.len() - i,
    {
        let renamed = lower_camel(names[i].as_str());
        names[i] = renamed;
        i += 1;
    }
    proof {
        assert(texts(names@) =~= rename_names(texts(old(names)@), casing()));
    }
}

/// Rewrites every declared identifier of a document to lowerCamelCase.
/// Sequence lengths, order, variant tags and all data that is no name are
/// kept, and so is the metadata block.
pub fn convert_new_idl(idl: &mut Idl)
    ensures
        final(idl)@ == rename_idl(old(idl)@, casing()),
        shape_of(final(idl)@) == shape_of(old(idl)@),
        final(idl)@.metadata == old(idl)@.metadata,
{
    proof {
        lemma_rename_keeps_shape(idl@, casing());
    }
    convert_account_list(&mut idl.accounts);
    convert_event_list(&mut idl.events);
    convert_error_list(&mut idl.errors);
    convert_type_def_list(&mut idl.types);
    convert_constant_list(&mut idl.constants);
    convert_instruction_list(&mut idl.instructions);
}

} // verus!
