//! Classification of the declaration a page documents: the closed set of
//! item kinds, the short kind tag used in class names and file-naming
//! conventions, and the human-readable titles. Every mapping here is total
//! over the kinds and stable: external collaborators name files and style
//! pages by these exact strings.

use vstd::prelude::*;

verus! {

/// The closed set of declaration kinds a documentation page can describe.
#[derive(Clone, Copy, Debug, PartialEq, Eq, Structural)]
pub enum DeclKind {
    Struct,
    Enum,
    Trait,
    Abi,
    Function,
    Constant,
    Storage,
    TypeAlias,
}

/// The page-level block title of one kind of declaration.
#[derive(Clone, Copy, Debug, PartialEq, Eq, Structural)]
pub enum BlockTitle {
    Structs,
    Enums,
    Traits,
    Abis,
    Functions,
    Constants,
    ContractStorage,
    TypeAliases,
}

impl DeclKind {
    /// The short kind tag used for CSS class and URL discrimination.
    pub open spec fn doc_name_spec(self) -> Seq<char> {
        match self {
            DeclKind::Struct => "struct"@,
            DeclKind::Enum => "enum"@,
            DeclKind::Trait => "trait"@,
            DeclKind::Abi => "abi"@,
            DeclKind::Function => "fn"@,
            DeclKind::Constant => "constant"@,
            DeclKind::Storage => "storage"@,
            DeclKind::TypeAlias => "type"@,
        }
    }

    /// The friendly name of the kind, as prose mentions it.
    pub open spec fn friendly_name_spec(self) -> Seq<char> {
        match self {
            DeclKind::Struct => "struct"@,
            DeclKind::Enum => "enum"@,
            DeclKind::Trait => "trait"@,
            DeclKind::Abi => "abi"@,
            DeclKind::Function => "function"@,
            DeclKind::Constant => "constant"@,
            DeclKind::Storage => "contract storage"@,
            DeclKind::TypeAlias => "type alias"@,
        }
    }

    /// The block title that labels a page for this kind.
    pub open spec fn block_title_spec(self) -> BlockTitle {
        match self {
            DeclKind::Struct => BlockTitle::Structs,
            DeclKind::Enum => BlockTitle::Enums,
            DeclKind::Trait => BlockTitle::Traits,
            DeclKind::Abi => BlockTitle::Abis,
            DeclKind::Function => BlockTitle::Functions,
            DeclKind::Constant => BlockTitle::Constants,
            DeclKind::Storage => BlockTitle::ContractStorage,
            DeclKind::TypeAlias => BlockTitle::TypeAliases,
        }
    }

    /// The short kind tag used for CSS class and URL discrimination.
    pub fn doc_name(&self) -> (r: &'static str)
        ensures
            r@ == self.doc_name_spec(),
    {
        match self {
            DeclKind::Struct => "struct",
            DeclKind::Enum => "enum",
            DeclKind::Trait => "trait",
            DeclKind::Abi => "abi",
            DeclKind::Function => "fn",
            DeclKind::Constant => "constant",
            DeclKind::Storage => "storage",
            DeclKind::TypeAlias => "type",
        }
    }

    /// The friendly name of the kind, as prose mentions it.
    pub fn friendly_name(&self) -> (r: &'static str)
        ensures
            r@ == self.friendly_name_spec(),
    {
        match self {
            DeclKind::Struct => "struct",
            DeclKind::Enum => "enum",
            DeclKind::Trait => "trait",
            DeclKind::Abi => "abi",
            DeclKind::Function => "function",
            DeclKind::Constant => "constant",
            DeclKind::Storage => "contract storage",
            DeclKind::TypeAlias => "type alias",
        }
    }

    /// The block title that labels a page for this kind.
    pub fn as_block_title(&self) -> (t: BlockTitle)
        ensures
            t == self.block_title_spec(),
    {
        match self {
            DeclKind::Struct => BlockTitle::Structs,
            DeclKind::Enum => BlockTitle::Enums,
            DeclKind::Trait => BlockTitle::Traits,
            DeclKind::Abi => BlockTitle::Abis,
            DeclKind::Function => BlockTitle::Functions,
            DeclKind::Constant => BlockTitle::Constants,
            DeclKind::Storage => BlockTitle::ContractStorage,
            DeclKind::TypeAlias => BlockTitle::TypeAliases,
        }
    }
}

impl BlockTitle {
    /// The singular title phrase that opens an item page's main heading.
    pub open spec fn item_title_spec(self) -> Seq<char> {
        match self {
            BlockTitle::Structs => "Struct"@,
            BlockTitle::Enums => "Enum"@,
            BlockTitle::Traits => "Trait"@,
            BlockTitle::Abis => "Abi"@,
            BlockTitle::Functions => "Function"@,
            BlockTitle::Constants => "Constant"@,
            BlockTitle::ContractStorage => "Contract Storage"@,
            BlockTitle::TypeAliases => "Type Alias"@,
        }
    }

    /// The singular title phrase that opens an item page's main heading.
    pub fn item_title_str(&self) -> (r: &'static str)
        ensures
            r@ == self.item_title_spec(),
    {
        match self {
            BlockTitle::Structs => "Struct",
            BlockTitle::Enums => "Enum",
            BlockTitle::Traits => "Trait",
            BlockTitle::Abis => "Abi",
            BlockTitle::Functions => "Function",
            BlockTitle::Constants => "Constant",
            BlockTitle::ContractStorage => "Contract Storage",
            BlockTitle::TypeAliases => "Type Alias",
        }
    }
}

/// What kind of page a sidebar navigates: the landing page of a module, or
/// the page of one declared item, labelled with its block title and name.
#[derive(Debug)]
pub enum DocStyle {
    ModuleIndex,
    Item { title: Option<BlockTitle>, name: Option<String> },
}

} // verus!
