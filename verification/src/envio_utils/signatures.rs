//! The signatures of the prompts that the wizard is known to print.
//!
//! The table is ordered: where two rows match a prompt, the earlier one wins. Prompt
//! texts can hold one another's words, so the more specific rows come first.

use vstd::prelude::*;
use vstd::string::*;

verus! {

use super::prompt::{table_view, PromptKind, PromptView, Signature, SignatureView};
use crate::text::texts;

/// The number of rows in the table of known signatures.
pub const SIGNATURE_COUNT: usize = 22;

/// A row with a single needle.
pub open spec fn one_needle(needle: Seq<char>, kind: PromptView) -> SignatureView {
    SignatureView { needles: seq![needle], kind }
}

/// A row with two needles, which must both occur.
pub open spec fn two_needles(first: Seq<char>, second: Seq<char>, kind: PromptView) -> SignatureView {
    SignatureView { needles: seq![first, second], kind }
}

/// Row `i` of the table of known signatures.
pub open spec fn known_signature(i: int) -> SignatureView {
    if i == 0 {
        one_needle("Specify a folder name"@, PromptView::AskFolderName)
    } else if i == 1 {
        one_needle("Which language would you like to use?"@, PromptView::AskLanguage)
    } else if i == 2 {
        one_needle("Javascript"@, PromptView::AskLanguage)
    } else if i == 3 {
        one_needle("Typescript"@, PromptView::AskLanguage)
    } else if i == 4 {
        one_needle("ReScript"@, PromptView::AskLanguage)
    } else if i == 5 {
        one_needle("Choose blockchain ecosystem"@, PromptView::AskEcosystem)
    } else if i == 6 {
        one_needle("Which events would you like to index?"@, PromptView::AskEventSelection)
    } else if i == 7 {
        two_needles("space to select one"@, "type to filter"@, PromptView::AskEventSelection)
    } else if i == 8 {
        one_needle("What is the path to your json abi file?"@, PromptView::AskAbiPath)
    } else if i == 9 {
        one_needle("Would you like to import from a block explorer or a local abi"@, PromptView::AskImportSource)
    } else if i == 10 {
        one_needle("Which blockchain would you like to import a contract from?"@, PromptView::AskBlockchainFromList)
    } else if i == 11 {
        one_needle("Choose network:"@, PromptView::AskNetworkChoiceGeneric)
    } else if i == 12 {
        one_needle("<Enter Network Id>"@, PromptView::AskNetworkChoiceGeneric)
    } else if i == 13 {
        one_needle("Enter the network id:"@, PromptView::AskNetworkId)
    } else if i == 14 {
        one_needle("What is the name of this contract?"@, PromptView::AskContractName)
    } else if i == 15 {
        one_needle("Use the proxy address if your abi is a proxy implementation"@, PromptView::AskContractName)
    } else if i == 16 {
        one_needle("What is the address of the contract?"@, PromptView::AskContractAddress)
    } else if i == 17 {
        one_needle("Would you like to add another contract?"@, PromptView::AskAddAnotherContract)
    } else if i == 18 {
        one_needle("Add an API token for HyperSync to your .env file?"@, PromptView::AskApiToken)
    } else if i == 19 {
        one_needle("Add your API token:"@, PromptView::AskApiToken)
    } else if i == 20 {
        one_needle("Project template ready"@, PromptView::TemplateReady)
    } else {
        one_needle("You can always visit 'https://envio.dev/app/api-tokens' and add a token later to your .env file."@, PromptView::FinalDone)
    }
}

/// The table of known signatures, in matching order.
pub open spec fn known_signatures() -> Seq<SignatureView> {
    Seq::new(SIGNATURE_COUNT as nat, |i: int| known_signature(i))
}

/// A row with the single needle `needle`.
pub fn single(needle: &str, kind: PromptKind) -> (r: Signature)
    ensures
        r@ == one_needle(needle@, kind@),
{
    let mut needles: Vec<String> = Vec::new();
    needles.push(String::from_str(needle));
    assert(texts(needles@) =~= seq![needle@]);
    Signature { needles, kind }
}

/// A row with the needles `first` and `second`.
pub fn pair(first: &str, second: &str, kind: PromptKind) -> (r: Signature)
    ensures
        r@ == two_needles(first@, second@, kind@),
{
    let mut needles: Vec<String> = Vec::new();
    needles.push(String::from_str(first));
    needles.push(String::from_str(second));
    assert(texts(needles@) =~= seq![first@, second@]);
    Signature { needles, kind }
}

/// Row `i` of the table of known signatures.
pub fn signature_at(i: usize) -> (r: Signature)
    requires
        i < SIGNATURE_COUNT,
    ensures
        r@ == known_signature(i as int),
{
    if i == 0 {
        single("Specify a folder name", PromptKind::AskFolderName)
    } else if i == 1 {
        single("Which language would you like to use?", PromptKind::AskLanguage)
    } else if i == 2 {
        single("Javascript", PromptKind::AskLanguage)
    } else if i == 3 {
        single("Typescript", PromptKind::AskLanguage)
    } else if i == 4 {
        single("ReScript", PromptKind::AskLanguage)
    } else if i == 5 {
        single("Choose blockchain ecosystem", PromptKind::AskEcosystem)
    } else if i == 6 {
        single("Which events would you like to index?", PromptKind::AskEventSelection)
    } else if i == 7 {
        pair("space to select one", "type to filter", PromptKind::AskEventSelection)
    } else if i == 8 {
        single("What is the path to your json abi file?", PromptKind::AskAbiPath)
    } else if i == 9 {
        single("Would you like to import from a block explorer or a local abi", PromptKind::AskImportSource)
    } else if i == 10 {
        single("Which blockchain would you like to import a contract from?", PromptKind::AskBlockchainFromList)
    } else if i == 11 {
        single("Choose network:", PromptKind::AskNetworkChoiceGeneric)
    } else if i == 12 {
        single("<Enter Network Id>", PromptKind::AskNetworkChoiceGeneric)
    } else if i == 13 {
        single("Enter the network id:", PromptKind::AskNetworkId)
    } else if i == 14 {
        single("What is the name of this contract?", PromptKind::AskContractName)
    } else if i == 15 {
        single("Use the proxy address if your abi is a proxy implementation", PromptKind::AskContractName)
    } else if i == 16 {
        single("What is the address of the contract?", PromptKind::AskContractAddress)
    } else if i == 17 {
        single("Would you like to add another contract?", PromptKind::AskAddAnotherContract)
    } else if i == 18 {
        single("Add an API token for HyperSync to your .env file?", PromptKind::AskApiToken)
    } else if i == 19 {
        single("Add your API token:", PromptKind::AskApiToken)
    } else if i == 20 {
        single("Project template ready", PromptKind::TemplateReady)
    } else {
        single("You can always visit 'https://envio.dev/app/api-tokens' and add a token later to your .env file.", PromptKind::FinalDone)
    }
}

/// The table of known signatures, in matching order.
pub fn signature_table() -> (table: Vec<Signature>)
    ensures
        table_view(table@) == known_signatures(),
{
    let mut table: Vec<Signature> = Vec::new();
    let mut i: usize = 0;
    while i < SIGNATURE_COUNT
        invariant
            i <= SIGNATURE_COUNT,
            table@.len() == i,
            forall|j: int| 0 <= j < i ==> table@[j]@ == known_signature(j),
        decreases SIGNATURE_COUNT - i,
    {
        table.push(signature_at(i));
        i += 1;
    }
    assert(table_view(table@) =~= known_signatures());
    table
}

} // verus!
