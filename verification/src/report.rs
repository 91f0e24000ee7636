//! What is reported of a single character: its position and its Unicode
//! properties.

use charname::get_name;
use ucd::Codepoint;
use unicode_security::general_security_profile::IdentifierType as Classification;
use unicode_security::GeneralSecurityProfile;
use vstd::prelude::*;
use vstd::string::*;

use crate::convert::{
    block_label, general_category_to_string, identifier_label, identifier_type_to_string,
    option_view, script_label, unicode_block_to_string, unicode_script_to_string,
    GeneralCategory, IdentifierType,
};
use crate::text::{decimal, decimal_digits, push_char};
use crate::transforms::{transliterate, transliteration};

verus! {

/// One row of a report: a character of a text and what is known of it.
#[derive(Clone, Debug, PartialEq, Eq)]
pub struct CharacterReport {
    /// The position of the character, counted from 0.
    pub index: usize,
    /// The character as it can be shown without danger: transliterated.
    pub rendering: String,
    /// The general category of the character.
    pub category: GeneralCategory,
    /// The name of the block in which the character lies, if it lies in one.
    pub block: Option<String>,
    /// The name of the script to which the character belongs, if any.
    pub script: Option<String>,
    /// How far the character is fit for identifiers, where that is known.
    pub identifier_type: Option<IdentifierType>,
    /// The Unicode name of the character.
    pub name: String,
}

/// What a row of a report is to specifications.
pub struct CharacterReportView {
    pub index: nat,
    pub rendering: Seq<char>,
    pub category: GeneralCategory,
    pub block: Option<Seq<char>>,
    pub script: Option<Seq<char>>,
    pub identifier_type: Option<IdentifierType>,
    pub name: Seq<char>,
}

impl View for CharacterReport {
    type V = CharacterReportView;

    open spec fn view(&self) -> CharacterReportView {
        CharacterReportView {
            index: self.index as nat,
            rendering: self.rendering@,
            category: self.category,
            block: option_view(self.block),
            script: option_view(self.script),
            identifier_type: self.identifier_type,
            name: self.name@,
        }
    }
}

impl DeepView for CharacterReport {
    type V = CharacterReportView;

    open spec fn deep_view(&self) -> CharacterReportView {
        self@
    }
}

/// The code of the general category of `c`: the position of the category
/// in the list of categories.
pub uninterp spec fn general_category_code(c: char) -> u8;

/// The name of the block in which `c` lies, if it lies in one.
pub uninterp spec fn block_name(c: char) -> Option<Seq<char>>;

/// The name of the script to which `c` belongs, if it belongs to one.
pub uninterp spec fn script_name(c: char) -> Option<Seq<char>>;

/// How far `c` is fit for identifiers, where that is known.
pub uninterp spec fn identifier_type_of(c: char) -> Option<IdentifierType>;

/// The Unicode name of `c`.
pub uninterp spec fn character_name(c: char) -> Seq<char>;

/// The general category of `c`.
pub open spec fn general_category_of(c: char) -> GeneralCategory {
    GeneralCategory::with_code(general_category_code(c))
}

/// The row that reports the character `c` at position `index`.
pub open spec fn report_of(index: nat, c: char) -> CharacterReportView {
    CharacterReportView {
        index,
        rendering: transliteration(seq![c]),
        category: general_category_of(c),
        block: block_name(c),
        script: script_name(c),
        identifier_type: identifier_type_of(c),
        name: character_name(c),
    }
}

/// The texts of the seven cells of a row: position, rendering, category,
/// block, script, identifier classification, name.
pub open spec fn row_cells(report: CharacterReportView) -> Seq<Seq<char>> {
    seq![
        decimal_digits(report.index),
        report.rendering,
        report.category.name(),
        block_label(report.block),
        script_label(report.script),
        identifier_label(report.identifier_type),
        report.name,
    ]
}

/// The titles of the seven columns of a report.
pub open spec fn title_cells() -> Seq<Seq<char>> {
    seq![
        "Index"@,
        "Char"@,
        "Category"@,
        "Block"@,
        "Script"@,
        "Identifier Type"@,
        "Name"@,
    ]
}

/// Looks up the code of the general category of `c`.
///
/// Trusted: this is `ucd::Codepoint::category`, cast to the position of
/// the category in that crate's list of categories, which is the order of
/// `GeneralCategory`. The result depends on the character alone.
#[verifier::external_body]
fn lookup_category_code(c: char) -> (code: u8)
    ensures
        code == general_category_code(c),
{
    c.category() as u8
}

/// Looks up the name of the block in which `c` lies.
///
/// Trusted: this is `ucd::Codepoint::block`, the block written by its
/// name in that crate. The result depends on the character alone.
#[verifier::external_body]
fn lookup_block(c: char) -> (block: Option<String>)
    ensures
        option_view(block) == block_name(c),
{
    c.block().map(|b| format!("{:?}", b))
}

/// Looks up the name of the script to which `c` belongs.
///
/// Trusted: this is `ucd::Codepoint::script`, the script written by its
/// name in that crate. The result depends on the character alone.
#[verifier::external_body]
fn lookup_script(c: char) -> (script: Option<String>)
    ensures
        option_view(script) == script_name(c),
{
    c.script().map(|s| format!("{:?}", s))
}

/// Looks up how far `c` is fit for identifiers.
///
/// Trusted: this is `unicode_security::GeneralSecurityProfile::identifier_type`,
/// each classification rewritten as the one of the same name here. The
/// result depends on the character alone.
#[verifier::external_body]
fn lookup_identifier_type(c: char) -> (ident: Option<IdentifierType>)
    ensures
        ident == identifier_type_of(c),
{
    c.identifier_type().map(|t| match t {
        Classification::Not_Character => IdentifierType::NotCharacter,
        Classification::Deprecated => IdentifierType::Deprecated,
        Classification::Default_Ignorable => IdentifierType::DefaultIgnorable,
        Classification::Not_NFKC => IdentifierType::NotNfkc,
        Classification::Not_XID => IdentifierType::NotXid,
        Classification::Exclusion => IdentifierType::Exclusion,
        Classification::Obsolete => IdentifierType::Obsolete,
        Classification::Technical => IdentifierType::Technical,
        Classification::Uncommon_Use => IdentifierType::UncommonUse,
        Classification::Limited_Use => IdentifierType::LimitedUse,
        Classification::Inclusion => IdentifierType::Inclusion,
        Classification::Recommended => IdentifierType::Recommended,
    })
}

/// Looks up the Unicode name of `c`.
///
/// Trusted: this is `charname::get_name` on the code point of `c`. The
/// result depends on the character alone.
#[verifier::external_body]
fn lookup_name(c: char) -> (name: String)
    ensures
        name@ == character_name(c),
{
    get_name(c as u32).to_string()
}

/// The row that reports the character `c` at position `index`. The
/// character itself is shown transliterated, never as it is.
pub fn character_info(index: usize, c: char) -> (report: CharacterReport)
    ensures
        report@ == report_of(index as nat, c),
{
    let mut single = String::new();
    push_char(&mut single, c);
    assert(single@ == seq![c]);
    CharacterReport {
        index,
        rendering: transliterate(single.as_str()),
        category: GeneralCategory::from_code(lookup_category_code(c)),
        block: lookup_block(c),
        script: lookup_script(c),
        identifier_type: lookup_identifier_type(c),
        name: lookup_name(c),
    }
}

impl CharacterReport {
    /// The texts of the seven cells of the row.
    pub fn cells(&self) -> (cells: Vec<String>)
        ensures
            cells.deep_view() == row_cells(self@),
    {
        let mut cells: Vec<String> = Vec::new();
        cells.push(decimal(self.index));
        cells.push(self.rendering.clone());
        cells.push(general_category_to_string(self.category));
        cells.push(unicode_block_to_string(&self.block));
        cells.push(unicode_script_to_string(&self.script));
        cells.push(String::from_str(identifier_type_to_string(self.identifier_type)));
        cells.push(self.name.clone());
        assert(cells.deep_view() =~= row_cells(self@));
        cells
    }
}

/// The titles of the seven columns of a report.
pub fn column_titles() -> (titles: Vec<&'static str>)
    ensures
        titles.deep_view() == title_cells(),
{
    let mut titles: Vec<&'static str> = Vec::new();
    titles.push("Index");
    titles.push("Char");
    titles.push("Category");
    titles.push("Block");
    titles.push("Script");
    titles.push("Identifier Type");
    titles.push("Name");
    assert(titles.deep_view() =~= title_cells());
    titles
}

} // verus!
