//! The schema of a current-shape IDL document: the executable tree, and for
//! each node its mathematical model, which contracts speak of. A model holds
//! names and structure by their views; what normalisation never reads (doc
//! lines, address derivations, layout hints) it holds as it is.

use vstd::prelude::*;

verus! {

/// The type tags that name no identifier.
#[derive(Debug, Clone, Copy, PartialEq, Eq, Structural)]
pub enum IdlPrimitive {
    Boolean,
    U8,
    I8,
    U16,
    I16,
    U32,
    I32,
    F32,
    U64,
    I64,
    F64,
    U128,
    I128,
    U256,
    I256,
    Bytes,
    Text,
    Pubkey,
}

/// A program that this one depends on. It is part of the metadata block
/// and takes no part in normalisation.
#[derive(Debug, PartialEq, Eq)]
pub struct IdlDependency {
    pub name: String,
    pub version: String,
}

/// Where the program is deployed.
#[derive(Debug, PartialEq, Eq)]
pub struct IdlDeployments {
    pub mainnet: Option<String>,
    pub testnet: Option<String>,
    pub devnet: Option<String>,
    pub localnet: Option<String>,
}

/// One seed of a program-derived address.
#[derive(Debug, PartialEq, Eq)]
pub enum IdlSeed {
    Const { value: Vec<u8> },
    Arg { path: String },
    Account { path: String, account: Option<String> },
}

/// How the address of an account is derived.
#[derive(Debug, PartialEq, Eq)]
pub struct IdlPda {
    pub seeds: Vec<IdlSeed>,
    pub program: Option<IdlSeed>,
}

/// How values of a defined type are serialised.
#[derive(Debug, PartialEq, Eq)]
pub enum IdlSerialization {
    Borsh,
    Bytemuck,
    BytemuckUnsafe,
    Custom(String),
}

/// Packing and alignment of a layout.
#[derive(Debug, Clone, Copy, PartialEq, Eq, Structural)]
pub struct IdlReprModifier {
    pub packed: bool,
    pub align: Option<usize>,
}

/// The memory layout of a defined type.
#[derive(Debug, Clone, Copy, PartialEq, Eq, Structural)]
pub enum IdlRepr {
    Rust(IdlReprModifier),
    C(IdlReprModifier),
    Transparent,
}

/// The length of an array type: a number, or the name of a const generic.
#[derive(Debug, PartialEq, Eq)]
pub enum IdlArrayLen {
    Generic(String),
    Value(usize),
}

/// A reference to a type.
#[derive(Debug, PartialEq, Eq)]
pub enum IdlType {
    Primitive(IdlPrimitive),
    Optional(Box<IdlType>),
    List(Box<IdlType>),
    Array(Box<IdlType>, IdlArrayLen),
    Defined { name: String, generics: Vec<IdlGenericArg> },
    Generic(String),
}

/// An argument for a generic parameter of a defined type.
#[derive(Debug, PartialEq, Eq)]
pub enum IdlGenericArg {
    Type { ty: IdlType },
    Const { value: String },
}

/// A named field of a struct or variant, or an instruction argument.
#[derive(Debug, PartialEq, Eq)]
pub struct IdlField {
    pub name: String,
    pub docs: Vec<String>,
    pub ty: IdlType,
}

/// The fields of a struct or of an enum variant.
#[derive(Debug, PartialEq, Eq)]
pub enum IdlDefinedFields {
    Named(Vec<IdlField>),
    Tuple(Vec<IdlType>),
}

/// A variant of an enum, with its fields where it has any.
#[derive(Debug, PartialEq, Eq)]
pub struct IdlEnumVariant {
    pub name: String,
    pub fields: Option<IdlDefinedFields>,
}

/// The body of a type definition.
#[derive(Debug, PartialEq, Eq)]
pub enum IdlTypeDefTy {
    Struct { fields: Option<IdlDefinedFields> },
    Enum { variants: Vec<IdlEnumVariant> },
    Type { alias: IdlType },
}

/// A generic parameter that a type definition declares.
#[derive(Debug, PartialEq, Eq)]
pub enum IdlTypeDefGeneric {
    Type { name: String },
    Const { name: String, ty: String },
}

/// A type that the program defines.
#[derive(Debug, PartialEq, Eq)]
pub struct IdlTypeDef {
    pub name: String,
    pub docs: Vec<String>,
    pub serialization: IdlSerialization,
    pub repr: Option<IdlRepr>,
    pub generics: Vec<IdlTypeDefGeneric>,
    pub ty: IdlTypeDefTy,
}

/// An account that an instruction takes, or a named group of them.
#[derive(Debug, PartialEq, Eq)]
pub enum IdlInstructionAccountItem {
    Composite { name: String, accounts: Vec<IdlInstructionAccountItem> },
    Single {
        name: String,
        docs: Vec<String>,
        writable: bool,
        signer: bool,
        optional: bool,
        address: Option<String>,
        pda: Option<IdlPda>,
        relations: Vec<String>,
    },
}

/// An instruction of the program.
#[derive(Debug, PartialEq, Eq)]
pub struct IdlInstruction {
    pub name: String,
    pub docs: Vec<String>,
    pub discriminator: Vec<u8>,
    pub accounts: Vec<IdlInstructionAccountItem>,
    pub args: Vec<IdlField>,
    pub returns: Option<IdlType>,
}

/// The metadata block. Its strings are no identifiers.
#[derive(Debug, PartialEq, Eq)]
pub struct IdlMetadata {
    pub name: String,
    pub version: String,
    pub spec: String,
    pub description: Option<String>,
    pub repository: Option<String>,
    pub dependencies: Vec<IdlDependency>,
    pub contact: Option<String>,
    pub deployments: Option<IdlDeployments>,
}

/// An account type that the program declares.
#[derive(Debug, PartialEq, Eq)]
pub struct IdlAccount {
    pub name: String,
    pub discriminator: Vec<u8>,
}

/// An event that the program emits.
#[derive(Debug, PartialEq, Eq)]
pub struct IdlEvent {
    pub name: String,
    pub discriminator: Vec<u8>,
}

/// An error that the program returns.
#[derive(Debug, PartialEq, Eq)]
pub struct IdlErrorCode {
    pub code: u32,
    pub name: String,
    pub msg: Option<String>,
}

/// A constant that the program declares.
#[derive(Debug, PartialEq, Eq)]
pub struct IdlConst {
    pub name: String,
    pub docs: Vec<String>,
    pub ty: IdlType,
    pub value: String,
}

/// A document of the current shape.
#[derive(Debug, PartialEq, Eq)]
pub struct Idl {
    pub address: String,
    pub metadata: IdlMetadata,
    pub docs: Vec<String>,
    pub instructions: Vec<IdlInstruction>,
    pub accounts: Vec<IdlAccount>,
    pub events: Vec<IdlEvent>,
    pub errors: Vec<IdlErrorCode>,
    pub types: Vec<IdlTypeDef>,
    pub constants: Vec<IdlConst>,
}

/// The model of an array length.
pub enum ArrayLenModel {
    Generic(Seq<char>),
    Value(usize),
}

/// The model of a type reference.
pub enum TypeModel {
    Primitive(IdlPrimitive),
    Optional(Box<TypeModel>),
    List(Box<TypeModel>),
    Array(Box<TypeModel>, ArrayLenModel),
    Defined { name: Seq<char>, generics: Seq<GenericArgModel> },
    Generic(Seq<char>),
}

/// The model of a generic argument.
pub enum GenericArgModel {
    Type { ty: TypeModel },
    Const { value: Seq<char> },
}

/// The model of a field.
pub struct FieldModel {
    pub name: Seq<char>,
    pub docs: Vec<String>,
    pub ty: TypeModel,
}

/// The model of a group of fields.
pub enum DefinedFieldsModel {
    Named(Seq<FieldModel>),
    Tuple(Seq<TypeModel>),
}

/// The model of an enum variant.
pub struct VariantModel {
    pub name: Seq<char>,
    pub fields: Option<DefinedFieldsModel>,
}

/// The model of the body of a type definition.
pub enum TypeDefTyModel {
    Struct { fields: Option<DefinedFieldsModel> },
    Enum { variants: Seq<VariantModel> },
    Type { alias: TypeModel },
}

/// The model of a declared generic.
pub enum TypeDefGenericModel {
    Type { name: Seq<char> },
    Const { name: Seq<char>, ty: Seq<char> },
}

/// The model of a type definition.
pub struct TypeDefModel {
    pub name: Seq<char>,
    pub docs: Vec<String>,
    pub serialization: IdlSerialization,
    pub repr: Option<IdlRepr>,
    pub generics: Seq<TypeDefGenericModel>,
    pub ty: TypeDefTyModel,
}

/// The model of an instruction account item.
pub enum AccountItemModel {
    Composite { name: Seq<char>, accounts: Seq<AccountItemModel> },
    Single {
        name: Seq<char>,
        docs: Vec<String>,
        writable: bool,
        signer: bool,
        optional: bool,
        address: Option<String>,
        pda: Option<IdlPda>,
        relations: Vec<String>,
    },
}

/// The model of an instruction.
pub struct InstructionModel {
    pub name: Seq<char>,
    pub docs: Vec<String>,
    pub discriminator: Seq<u8>,
    pub accounts: Seq<AccountItemModel>,
    pub args: Seq<FieldModel>,
    pub returns: Option<TypeModel>,
}

/// The model of the metadata block.
pub struct MetadataModel {
    pub name: Seq<char>,
    pub version: Seq<char>,
    pub spec: String,
    pub description: Option<Seq<char>>,
    pub repository: Option<Seq<char>>,
    pub dependencies: Vec<IdlDependency>,
    pub contact: Option<String>,
    pub deployments: Option<IdlDeployments>,
}

/// The model of an account type.
pub struct AccountModel {
    pub name: Seq<char>,
    pub discriminator: Seq<u8>,
}

/// The model of an event.
pub struct EventModel {
    pub name: Seq<char>,
    pub discriminator: Seq<u8>,
}

/// The model of an error.
pub struct ErrorCodeModel {
    pub code: u32,
    pub name: Seq<char>,
    pub msg: Option<Seq<char>>,
}

/// The model of a constant.
pub struct ConstModel {
    pub name: Seq<char>,
    pub docs: Vec<String>,
    pub ty: TypeModel,
    pub value: Seq<char>,
}

/// The model of a document.
pub struct IdlModel {
    pub address: String,
    pub metadata: MetadataModel,
    pub docs: Vec<String>,
    pub instructions: Seq<InstructionModel>,
    pub accounts: Seq<AccountModel>,
    pub events: Seq<EventModel>,
    pub errors: Seq<ErrorCodeModel>,
    pub types: Seq<TypeDefModel>,
    pub constants: Seq<ConstModel>,
}

/// The characters of an optional string.
pub open spec fn opt_text(o: Option<String>) -> Option<Seq<char>> {
    match o {
        Some(s) => Some(s@),
        None => None,
    }
}

/// The characters of each string of a sequence.
pub open spec fn texts(v: Seq<String>) -> Seq<Seq<char>> {
    v.map_values(|s: String| s@)
}

/// The model of a type reference, with the models of its generic arguments
/// in order.
pub open spec fn type_model(t: IdlType) -> TypeModel
    decreases t,
{
    match t {
        IdlType::Primitive(p) => TypeModel::Primitive(p),
        IdlType::Optional(inner) => TypeModel::Optional(Box::new(type_model(*inner))),
        IdlType::List(inner) => TypeModel::List(Box::new(type_model(*inner))),
        IdlType::Array(inner, len) => TypeModel::Array(Box::new(type_model(*inner)), len@),
        IdlType::Defined { name, generics } => TypeModel::Defined {
            name: name@,
            generics: Seq::new(
                generics.len() as nat,
                |i: int|
                    if 0 <= i < generics.len() {
                        generic_arg_model(generics[i])
                    } else {
                        arbitrary()
                    },
            ),
        },
        IdlType::Generic(name) => TypeModel::Generic(name@),
    }
}

/// The model of a generic argument.
pub open spec fn generic_arg_model(a: IdlGenericArg) -> GenericArgModel
    decreases a,
{
    match a {
        IdlGenericArg::Type { ty } => GenericArgModel::Type { ty: type_model(ty) },
        IdlGenericArg::Const { value } => GenericArgModel::Const { value: value@ },
    }
}

/// The model of an account item, with the models of the items nested in it
/// in order.
pub open spec fn account_item_model(a: IdlInstructionAccountItem) -> AccountItemModel
    decreases a,
{
    match a {
        IdlInstructionAccountItem::Composite { name, accounts } => AccountItemModel::Composite {
            name: name@,
            accounts: Seq::new(
                accounts.len() as nat,
                |i: int|
                    if 0 <= i < accounts.len() {
                        account_item_model(accounts[i])
                    } else {
                        arbitrary()
                    },
            ),
        },
        IdlInstructionAccountItem::Single {
            name,
            docs,
            writable,
            signer,
            optional,
            address,
            pda,
            relations,
        } => AccountItemModel::Single {
            name: name@,
            docs,
            writable,
            signer,
            optional,
            address,
            pda,
            relations,
        },
    }
}

impl View for IdlArrayLen {
    type V = ArrayLenModel;

    open spec fn view(&self) -> ArrayLenModel {
        match *self {
            IdlArrayLen::Generic(name) => ArrayLenModel::Generic(name@),
            IdlArrayLen::Value(n) => ArrayLenModel::Value(n),
        }
    }
}

impl View for IdlType {
    type V = TypeModel;

    open spec fn view(&self) -> TypeModel {
        type_model(*self)
    }
}

impl View for IdlGenericArg {
    type V = GenericArgModel;

    open spec fn view(&self) -> GenericArgModel {
        generic_arg_model(*self)
    }
}

impl View for IdlField {
    type V = FieldModel;

    open spec fn view(&self) -> FieldModel {
        FieldModel { name: self.name@, docs: self.docs, ty: self.ty@ }
    }
}

impl View for IdlDefinedFields {
    type V = DefinedFieldsModel;

    open spec fn view(&self) -> DefinedFieldsModel {
        match *self {
            IdlDefinedFields::Named(fields) => DefinedFieldsModel::Named(
                field_models(fields@),
            ),
            IdlDefinedFields::Tuple(tys) => DefinedFieldsModel::Tuple(
                type_models(tys@),
            ),
        }
    }
}

/// The model of the fields of a struct or variant, where it has any.
pub open spec fn opt_fields_model(o: Option<IdlDefinedFields>) -> Option<DefinedFieldsModel> {
    match o {
        Some(f) => Some(f@),
        None => None,
    }
}

impl View for IdlEnumVariant {
    type V = VariantModel;

    open spec fn view(&self) -> VariantModel {
        VariantModel { name: self.name@, fields: opt_fields_model(self.fields) }
    }
}

impl View for IdlTypeDefTy {
    type V = TypeDefTyModel;

    open spec fn view(&self) -> TypeDefTyModel {
        match *self {
            IdlTypeDefTy::Struct { fields } => TypeDefTyModel::Struct {
                fields: opt_fields_model(fields),
            },
            IdlTypeDefTy::Enum { variants } => TypeDefTyModel::Enum {
                variants: variant_models(variants@),
            },
            IdlTypeDefTy::Type { alias } => TypeDefTyModel::Type { alias: alias@ },
        }
    }
}

impl View for IdlTypeDefGeneric {
    type V = TypeDefGenericModel;

    open spec fn view(&self) -> TypeDefGenericModel {
        match *self {
            IdlTypeDefGeneric::Type { name } => TypeDefGenericModel::Type { name: name@ },
            IdlTypeDefGeneric::Const { name, ty } => TypeDefGenericModel::Const {
                name: name@,
                ty: ty@,
            },
        }
    }
}

impl View for IdlTypeDef {
    type V = TypeDefModel;

    open spec fn view(&self) -> TypeDefModel {
        TypeDefModel {
            name: self.name@,
            docs: self.docs,
            serialization: self.serialization,
            repr: self.repr,
            generics: generic_param_models(self.generics@),
            ty: self.ty@,
        }
    }
}

impl View for IdlInstructionAccountItem {
    type V = AccountItemModel;

    open spec fn view(&self) -> AccountItemModel {
        account_item_model(*self)
    }
}

impl View for IdlInstruction {
    type V = InstructionModel;

    open spec fn view(&self) -> InstructionModel {
        InstructionModel {
            name: self.name@,
            docs: self.docs,
            discriminator: self.discriminator@,
            accounts: account_item_models(self.accounts@),
            args: field_models(self.args@),
            returns: match self.returns {
                Some(t) => Some(t@),
                None => None,
            },
        }
    }
}

impl View for IdlMetadata {
    type V = MetadataModel;

    open spec fn view(&self) -> MetadataModel {
        MetadataModel {
            name: self.name@,
            version: self.version@,
            spec: self.spec,
            description: opt_text(self.description),
            repository: opt_text(self.repository),
            dependencies: self.dependencies,
            contact: self.contact,
            deployments: self.deployments,
        }
    }
}

impl View for IdlAccount {
    type V = AccountModel;

    open spec fn view(&self) -> AccountModel {
        AccountModel { name: self.name@, discriminator: self.discriminator@ }
    }
}

impl View for IdlEvent {
    type V = EventModel;

    open spec fn view(&self) -> EventModel {
        EventModel { name: self.name@, discriminator: self.discriminator@ }
    }
}

impl View for IdlErrorCode {
    type V = ErrorCodeModel;

    open spec fn view(&self) -> ErrorCodeModel {
        ErrorCodeModel { code: self.code, name: self.name@, msg: opt_text(self.msg) }
    }
}

impl View for IdlConst {
    type V = ConstModel;

    open spec fn view(&self) -> ConstModel {
        ConstModel { name: self.name@, docs: self.docs, ty: self.ty@, value: self.value@ }
    }
}

impl View for Idl {
    type V = IdlModel;

    open spec fn view(&self) -> IdlModel {
        IdlModel {
            address: self.address,
            metadata: self.metadata@,
            docs: self.docs,
            instructions: instruction_models(self.instructions@),
            accounts: account_models(self.accounts@),
            events: event_models(self.events@),
            errors: error_models(self.errors@),
            types: type_def_models(self.types@),
            constants: const_models(self.constants@),
        }
    }
}

/// The models of the items of a sequence, in order. The functions that follow
/// do the same for the other kinds of node.
pub open spec fn type_models(v: Seq<IdlType>) -> Seq<TypeModel> {
    v.map_values(|t: IdlType| t@)
}

pub open spec fn field_models(v: Seq<IdlField>) -> Seq<FieldModel> {
    v.map_values(|f: IdlField| f@)
}

pub open spec fn variant_models(v: Seq<IdlEnumVariant>) -> Seq<VariantModel> {
    v.map_values(|x: IdlEnumVariant| x@)
}

pub open spec fn generic_param_models(v: Seq<IdlTypeDefGeneric>) -> Seq<TypeDefGenericModel> {
    v.map_values(|g: IdlTypeDefGeneric| g@)
}

pub open spec fn account_item_models(v: Seq<IdlInstructionAccountItem>) -> Seq<AccountItemModel> {
    v.map_values(|a: IdlInstructionAccountItem| a@)
}

pub open spec fn instruction_models(v: Seq<IdlInstruction>) -> Seq<InstructionModel> {
    v.map_values(|i: IdlInstruction| i@)
}

pub open spec fn account_models(v: Seq<IdlAccount>) -> Seq<AccountModel> {
    v.map_values(|a: IdlAccount| a@)
}

pub open spec fn event_models(v: Seq<IdlEvent>) -> Seq<EventModel> {
    v.map_values(|e: IdlEvent| e@)
}

pub open spec fn error_models(v: Seq<IdlErrorCode>) -> Seq<ErrorCodeModel> {
    v.map_values(|e: IdlErrorCode| e@)
}

pub open spec fn const_models(v: Seq<IdlConst>) -> Seq<ConstModel> {
    v.map_values(|c: IdlConst| c@)
}

pub open spec fn type_def_models(v: Seq<IdlTypeDef>) -> Seq<TypeDefModel> {
    v.map_values(|t: IdlTypeDef| t@)
}

} // verus!
