//! The names under which a character's Unicode properties are reported.

use vstd::prelude::*;
use vstd::string::*;

verus! {

/// The general category of a character.
///
/// The variants stand in the order of their codes: the first has code 0.
#[derive(Clone, Copy, Debug, PartialEq, Eq, Structural)]
pub enum GeneralCategory {
    UppercaseLetter,
    LowercaseLetter,
    TitlecaseLetter,
    ModifierLetter,
    OtherLetter,
    NonspacingMark,
    SpacingMark,
    EnclosingMark,
    DecimalNumber,
    LetterNumber,
    OtherNumber,
    ConnectorPunctuation,
    DashPunctuation,
    OpenPunctuation,
    ClosePunctuation,
    InitialPunctuation,
    FinalPunctuation,
    OtherPunctuation,
    MathSymbol,
    CurrencySymbol,
    ModifierSymbol,
    OtherSymbol,
    SpaceSeparator,
    LineSeparator,
    ParagraphSeparator,
    Control,
    Format,
    Surrogate,
    PrivateUse,
    Unassigned,
}

impl GeneralCategory {
    /// The position of the category in the list of categories.
    pub open spec fn code(self) -> u8 {
        match self {
            GeneralCategory::UppercaseLetter => 0,
            GeneralCategory::LowercaseLetter => 1,
            GeneralCategory::TitlecaseLetter => 2,
            GeneralCategory::ModifierLetter => 3,
            GeneralCategory::OtherLetter => 4,
            GeneralCategory::NonspacingMark => 5,
            GeneralCategory::SpacingMark => 6,
            GeneralCategory::EnclosingMark => 7,
            GeneralCategory::DecimalNumber => 8,
            GeneralCategory::LetterNumber => 9,
            GeneralCategory::OtherNumber => 10,
            GeneralCategory::ConnectorPunctuation => 11,
            GeneralCategory::DashPunctuation => 12,
            GeneralCategory::OpenPunctuation => 13,
            GeneralCategory::ClosePunctuation => 14,
            GeneralCategory::InitialPunctuation => 15,
            GeneralCategory::FinalPunctuation => 16,
            GeneralCategory::OtherPunctuation => 17,
            GeneralCategory::MathSymbol => 18,
            GeneralCategory::CurrencySymbol => 19,
            GeneralCategory::ModifierSymbol => 20,
            GeneralCategory::OtherSymbol => 21,
            GeneralCategory::SpaceSeparator => 22,
            GeneralCategory::LineSeparator => 23,
            GeneralCategory::ParagraphSeparator => 24,
            GeneralCategory::Control => 25,
            GeneralCategory::Format => 26,
            GeneralCategory::Surrogate => 27,
            GeneralCategory::PrivateUse => 28,
            GeneralCategory::Unassigned => 29,
        }
    }

    /// The category with the given code; `Unassigned` where there is none.
    pub open spec fn with_code(code: u8) -> GeneralCategory {
        if code == 0 {
            GeneralCategory::UppercaseLetter
        } else if code == 1 {
            GeneralCategory::LowercaseLetter
        } else if code == 2 {
            GeneralCategory::TitlecaseLetter
        } else if code == 3 {
            GeneralCategory::ModifierLetter
        } else if code == 4 {
            GeneralCategory::OtherLetter
        } else if code == 5 {
            GeneralCategory::NonspacingMark
        } else if code == 6 {
            GeneralCategory::SpacingMark
        } else if code == 7 {
            GeneralCategory::EnclosingMark
        } else if code == 8 {
            GeneralCategory::DecimalNumber
        } else if code == 9 {
            GeneralCategory::LetterNumber
        } else if code == 10 {
            GeneralCategory::OtherNumber
        } else if code == 11 {
            GeneralCategory::ConnectorPunctuation
        } else if code == 12 {
            GeneralCategory::DashPunctuation
        } else if code == 13 {
            GeneralCategory::OpenPunctuation
        } else if code == 14 {
            GeneralCategory::ClosePunctuation
        } else if code == 15 {
            GeneralCategory::InitialPunctuation
        } else if code == 16 {
            GeneralCategory::FinalPunctuation
        } else if code == 17 {
            GeneralCategory::OtherPunctuation
        } else if code == 18 {
            GeneralCategory::MathSymbol
        } else if code == 19 {
            GeneralCategory::CurrencySymbol
        } else if code == 20 {
            GeneralCategory::ModifierSymbol
        } else if code == 21 {
            GeneralCategory::OtherSymbol
        } else if code == 22 {
            GeneralCategory::SpaceSeparator
        } else if code == 23 {
            GeneralCategory::LineSeparator
        } else if code == 24 {
            GeneralCategory::ParagraphSeparator
        } else if code == 25 {
            GeneralCategory::Control
        } else if code == 26 {
            GeneralCategory::Format
        } else if code == 27 {
            GeneralCategory::Surrogate
        } else if code == 28 {
            GeneralCategory::PrivateUse
        } else {
            GeneralCategory::Unassigned
        }
    }

    /// The name under which the category is reported.
    pub open spec fn name(self) -> Seq<char> {
        match self {
            GeneralCategory::UppercaseLetter => "UppercaseLetter"@,
            GeneralCategory::LowercaseLetter => "LowercaseLetter"@,
            GeneralCategory::TitlecaseLetter => "TitlecaseLetter"@,
            GeneralCategory::ModifierLetter => "ModifierLetter"@,
            GeneralCategory::OtherLetter => "OtherLetter"@,
            GeneralCategory::NonspacingMark => "NonspacingMark"@,
            GeneralCategory::SpacingMark => "SpacingMark"@,
            GeneralCategory::EnclosingMark => "EnclosingMark"@,
            GeneralCategory::DecimalNumber => "DecimalNumber"@,
            GeneralCategory::LetterNumber => "LetterNumber"@,
            GeneralCategory::OtherNumber => "OtherNumber"@,
            GeneralCategory::ConnectorPunctuation => "ConnectorPunctuation"@,
            GeneralCategory::DashPunctuation => "DashPunctuation"@,
            GeneralCategory::OpenPunctuation => "OpenPunctuation"@,
            GeneralCategory::ClosePunctuation => "ClosePunctuation"@,
            GeneralCategory::InitialPunctuation => "InitialPunctuation"@,
            GeneralCategory::FinalPunctuation => "FinalPunctuation"@,
            GeneralCategory::OtherPunctuation => "OtherPunctuation"@,
            GeneralCategory::MathSymbol => "MathSymbol"@,
            GeneralCategory::CurrencySymbol => "CurrencySymbol"@,
            GeneralCategory::ModifierSymbol => "ModifierSymbol"@,
            GeneralCategory::OtherSymbol => "OtherSymbol"@,
            GeneralCategory::SpaceSeparator => "SpaceSeparator"@,
            GeneralCategory::LineSeparator => "LineSeparator"@,
            GeneralCategory::ParagraphSeparator => "ParagraphSeparator"@,
            GeneralCategory::Control => "Control"@,
            GeneralCategory::Format => "Format"@,
            GeneralCategory::Surrogate => "Surrogate"@,
            GeneralCategory::PrivateUse => "PrivateUse"@,
            GeneralCategory::Unassigned => "Unassigned"@,
        }
    }

    /// The category with the given code; `Unassigned` where there is none.
    pub fn from_code(code: u8) -> (category: GeneralCategory)
        ensures
            category == GeneralCategory::with_code(code),
    {
        match code {
            0 => GeneralCategory::UppercaseLetter,
            1 => GeneralCategory::LowercaseLetter,
            2 => GeneralCategory::TitlecaseLetter,
            3 => GeneralCategory::ModifierLetter,
            4 => GeneralCategory::OtherLetter,
            5 => GeneralCategory::NonspacingMark,
            6 => GeneralCategory::SpacingMark,
            7 => GeneralCategory::EnclosingMark,
            8 => GeneralCategory::DecimalNumber,
            9 => GeneralCategory::LetterNumber,
            10 => GeneralCategory::OtherNumber,
            11 => GeneralCategory::ConnectorPunctuation,
            12 => GeneralCategory::DashPunctuation,
            13 => GeneralCategory::OpenPunctuation,
            14 => GeneralCategory::ClosePunctuation,
            15 => GeneralCategory::InitialPunctuation,
            16 => GeneralCategory::FinalPunctuation,
            17 => GeneralCategory::OtherPunctuation,
            18 => GeneralCategory::MathSymbol,
            19 => GeneralCategory::CurrencySymbol,
            20 => GeneralCategory::ModifierSymbol,
            21 => GeneralCategory::OtherSymbol,
            22 => GeneralCategory::SpaceSeparator,
            23 => GeneralCategory::LineSeparator,
            24 => GeneralCategory::ParagraphSeparator,
            25 => GeneralCategory::Control,
            26 => GeneralCategory::Format,
            27 => GeneralCategory::Surrogate,
            28 => GeneralCategory::PrivateUse,
            _ => GeneralCategory::Unassigned,
        }
    }

    /// Every category is the one that its own code stands for.
    pub proof fn lemma_code_round_trip(self)
        ensures
            GeneralCategory::with_code(self.code()) == self,
            self.code() < 30,
    {
    }
}

/// The name under which a general category is reported.
pub fn general_category_to_string(cat: GeneralCategory) -> (name: String)
    ensures
        name@ == cat.name(),
{
    match cat {
        GeneralCategory::UppercaseLetter => String::from_str("UppercaseLetter"),
        GeneralCategory::LowercaseLetter => String::from_str("LowercaseLetter"),
        GeneralCategory::TitlecaseLetter => String::from_str("TitlecaseLetter"),
        GeneralCategory::ModifierLetter => String::from_str("ModifierLetter"),
        GeneralCategory::OtherLetter => String::from_str("OtherLetter"),
        GeneralCategory::NonspacingMark => String::from_str("NonspacingMark"),
        GeneralCategory::SpacingMark => String::from_str("SpacingMark"),
        GeneralCategory::EnclosingMark => String::from_str("EnclosingMark"),
        GeneralCategory::DecimalNumber => String::from_str("DecimalNumber"),
        GeneralCategory::LetterNumber => String::from_str("LetterNumber"),
        GeneralCategory::OtherNumber => String::from_str("OtherNumber"),
        GeneralCategory::ConnectorPunctuation => String::from_str("ConnectorPunctuation"),
        GeneralCategory::DashPunctuation => String::from_str("DashPunctuation"),
        GeneralCategory::OpenPunctuation => String::from_str("OpenPunctuation"),
        GeneralCategory::ClosePunctuation => String::from_str("ClosePunctuation"),
        GeneralCategory::InitialPunctuation => String::from_str("InitialPunctuation"),
        GeneralCategory::FinalPunctuation => String::from_str("FinalPunctuation"),
        GeneralCategory::OtherPunctuation => String::from_str("OtherPunctuation"),
        GeneralCategory::MathSymbol => String::from_str("MathSymbol"),
        GeneralCategory::CurrencySymbol => String::from_str("CurrencySymbol"),
        GeneralCategory::ModifierSymbol => String::from_str("ModifierSymbol"),
        GeneralCategory::OtherSymbol => String::from_str("OtherSymbol"),
        GeneralCategory::SpaceSeparator => String::from_str("SpaceSeparator"),
        GeneralCategory::LineSeparator => String::from_str("LineSeparator"),
        GeneralCategory::ParagraphSeparator => String::from_str("ParagraphSeparator"),
        GeneralCategory::Control => String::from_str("Control"),
        GeneralCategory::Format => String::from_str("Format"),
        GeneralCategory::Surrogate => String::from_str("Surrogate"),
        GeneralCategory::PrivateUse => String::from_str("PrivateUse"),
        GeneralCategory::Unassigned => String::from_str("Unassigned"),
    }
}

/// How far a character is fit for use in identifiers.
#[derive(Clone, Copy, Debug, PartialEq, Eq, Structural)]
pub enum IdentifierType {
    NotCharacter,
    Deprecated,
    DefaultIgnorable,
    NotNfkc,
    NotXid,
    Exclusion,
    Obsolete,
    Technical,
    UncommonUse,
    LimitedUse,
    Inclusion,
    Recommended,
}

impl IdentifierType {
    /// The label under which the classification is reported.
    pub open spec fn label(self) -> Seq<char> {
        match self {
            IdentifierType::NotCharacter => "Not Character"@,
            IdentifierType::Deprecated => "Deprecated"@,
            IdentifierType::DefaultIgnorable => "Default Ignorable"@,
            IdentifierType::NotNfkc => "Not NFKC"@,
            IdentifierType::NotXid => "Not XID"@,
            IdentifierType::Exclusion => "Exclusion"@,
            IdentifierType::Obsolete => "Obsolete"@,
            IdentifierType::Technical => "Technical"@,
            IdentifierType::UncommonUse => "Uncommon Use"@,
            IdentifierType::LimitedUse => "Limited Use"@,
            IdentifierType::Inclusion => "Inclusion"@,
            IdentifierType::Recommended => "Recommended"@,
        }
    }
}

/// The label under which an identifier classification is reported.
pub fn char_identifier_to_string(ident: IdentifierType) -> (label: &'static str)
    ensures
        label@ == ident.label(),
{
    match ident {
        IdentifierType::NotCharacter => "Not Character",
        IdentifierType::Deprecated => "Deprecated",
        IdentifierType::DefaultIgnorable => "Default Ignorable",
        IdentifierType::NotNfkc => "Not NFKC",
        IdentifierType::NotXid => "Not XID",
        IdentifierType::Exclusion => "Exclusion",
        IdentifierType::Obsolete => "Obsolete",
        IdentifierType::Technical => "Technical",
        IdentifierType::UncommonUse => "Uncommon Use",
        IdentifierType::LimitedUse => "Limited Use",
        IdentifierType::Inclusion => "Inclusion",
        IdentifierType::Recommended => "Recommended",
    }
}

/// The label for a character that has no identifier classification.
pub open spec fn unknown_identifier_label() -> Seq<char> {
    "Unknown Character Type"@
}

/// The label of an identifier classification that may be missing.
pub open spec fn identifier_label(ident: Option<IdentifierType>) -> Seq<char> {
    match ident {
        Some(t) => t.label(),
        None => unknown_identifier_label(),
    }
}

/// The label under which a classification that may be missing is reported.
pub fn identifier_type_to_string(ident: Option<IdentifierType>) -> (label: &'static str)
    ensures
        label@ == identifier_label(ident),
{
    match ident {
        Some(t) => char_identifier_to_string(t),
        None => "Unknown Character Type",
    }
}

/// The text that stands for a block where a character lies in none.
pub open spec fn no_block_label() -> Seq<char> {
    "NoBlock"@
}

/// The text that stands for a script where a character belongs to none.
pub open spec fn no_script_label() -> Seq<char> {
    "Unknown"@
}

/// The name of a block that may be missing.
pub open spec fn block_label(block: Option<Seq<char>>) -> Seq<char> {
    match block {
        Some(name) => name,
        None => no_block_label(),
    }
}

/// The name of a script that may be missing.
pub open spec fn script_label(script: Option<Seq<char>>) -> Seq<char> {
    match script {
        Some(name) => name,
        None => no_script_label(),
    }
}

/// The views of an optional string.
pub open spec fn option_view(s: Option<String>) -> Option<Seq<char>> {
    match s {
        Some(s) => Some(s@),
        None => None,
    }
}

/// The name under which a character's block is reported.
pub fn unicode_block_to_string(block: &Option<String>) -> (name: String)
    ensures
        name@ == block_label(option_view(*block)),
{
    match block {
        Some(name) => name.clone(),
        None => String::from_str("NoBlock"),
    }
}

/// The name under which a character's script is reported.
pub fn unicode_script_to_string(script: &Option<String>) -> (name: String)
    ensures
        name@ == script_label(option_view(*script)),
{
    match script {
        Some(name) => name.clone(),
        None => String::from_str("Unknown"),
    }
}

} // verus!
