use crate::links::Links;
use crate::timestamp::Timestamp;
use std::collections::HashMap;
use vstd::prelude::*;
use vstd::string::*;

verus! {

/// The envelope around every response of the service: the payload under
/// `data`, and the pagination links where the response has any.
pub struct ApiResponse<T> {
    pub data: T,
    pub links: Option<Links>,
}

impl<T> ApiResponse<T> {
    /// The address of the page that follows this one.
    ///
    /// There is one only where the envelope has links, the links have an
    /// entry `next`, and that entry has a value. An envelope without links and
    /// one whose `next` is explicitly empty both end the collection.
    pub open spec fn next(&self) -> Option<Seq<char>> {
        match self.links {
            Some(links) => {
                if links@.contains_key("next"@) {
                    links@["next"@]
                } else {
                    None
                }
            },
            None => None,
        }
    }

    /// Whether a further page follows this one.
    pub fn has_next(api_response: &ApiResponse<T>) -> (more: bool)
        ensures
            more == (api_response.next() is Some),
    {
        match &api_response.links {
            None => false,
            Some(links) => match links.get("next") {
                None => false,
                Some(target) => target.is_some(),
            },
        }
    }

    /// The address of the page that follows this one, where there is one.
    pub fn next_url(&self) -> (url: Option<String>)
        ensures
            crate::links::target_text(url) == self.next(),
    {
        match &self.links {
            None => None,
            Some(links) => match links.get("next") {
                None => None,
                Some(target) => target,
            },
        }
    }
}

/// An account.
#[derive(Debug, PartialEq, Eq)]
pub struct Account {
    pub resource_type: String,
    pub id: String,
    pub attributes: AccountAttributes,
    pub relationships: AccountRelationships,
    pub links: HashMap<String, String>,
}

#[derive(Debug, PartialEq, Eq)]
pub struct AccountRelationships {
    pub transactions: AccountTransactionsRelationships,
}

#[derive(Debug, PartialEq, Eq)]
pub struct AccountAttributes {
    pub display_name: String,
    pub account_type: AccountType,
    pub ownership_type: OwnershipType,
    pub balance: Money,
    pub created_at: Timestamp,
}

/// The kind of an account.
#[derive(Debug, PartialEq, Eq)]
pub enum AccountType {
    Saver,
    Transactional,
}

impl AccountType {
    /// The name of the kind as the service writes it.
    pub open spec fn text(&self) -> Seq<char> {
        match self {
            AccountType::Saver => "SAVER"@,
            AccountType::Transactional => "TRANSACTIONAL"@,
        }
    }

    /// The name of the kind as the service writes it.
    pub fn to_string(&self) -> (name: String)
        ensures
            name@ == self.text(),
    {
        match self {
            AccountType::Saver => String::from_str("SAVER"),
            AccountType::Transactional => String::from_str("TRANSACTIONAL"),
        }
    }
}

/// Who owns an account.
#[derive(Debug, PartialEq, Eq)]
pub enum OwnershipType {
    Individual,
    Joint,
}

impl OwnershipType {
    /// The name of the ownership as the service writes it.
    pub open spec fn text(&self) -> Seq<char> {
        match self {
            OwnershipType::Individual => "INDIVIDUAL"@,
            OwnershipType::Joint => "JOINT"@,
        }
    }

    /// The name of the ownership as the service writes it.
    pub fn to_string(&self) -> (name: String)
        ensures
            name@ == self.text(),
    {
        match self {
            OwnershipType::Individual => String::from_str("INDIVIDUAL"),
            OwnershipType::Joint => String::from_str("JOINT"),
        }
    }
}

/// An amount of money: the currency, the amount as a decimal text, and the
/// amount in the smallest unit of the currency.
#[derive(Debug, PartialEq, Eq)]
pub struct Money {
    pub currency_code: String,
    pub value: String,
    pub value_in_base_units: i128,
}

#[derive(Debug, PartialEq, Eq)]
pub struct AccountTransactionsRelationships {
    pub links: HashMap<String, String>,
}

/// A category of transactions.
#[derive(Debug, PartialEq, Eq)]
pub struct Category {
    pub resource_type: String,
    pub id: String,
    pub attributes: CategoryAttributes,
    pub relationships: CategoryRelationships,
    pub links: Option<HashMap<String, String>>,
}

impl Category {
    /// The value that stands for this category in a filter: its identifier.
    pub fn to_param(&self) -> (param: &String)
        ensures
            param@ == self.id@,
    {
        &self.id
    }
}

#[derive(Debug, PartialEq, Eq)]
pub struct CategoryAttributes {
    pub name: String,
}

#[derive(Debug, PartialEq, Eq)]
pub struct CategoryRelationships {
    pub parent: ParentRelationship,
    pub children: ChildRelationship,
}

#[derive(Debug, PartialEq, Eq)]
pub struct ChildRelationship {
    pub data: Option<Vec<HashMap<String, String>>>,
    pub links: Option<HashMap<String, String>>,
}

#[derive(Debug, PartialEq, Eq)]
pub struct ParentRelationship {
    pub data: Option<HashMap<String, String>>,
    pub links: Option<HashMap<String, String>>,
}

/// A tag on transactions.
#[derive(Debug, PartialEq, Eq)]
pub struct Tag {
    pub resource_type: String,
    pub id: String,
    pub relationships: TagRelationships,
}

impl Tag {
    /// The value that stands for this tag in a filter: its identifier.
    pub fn to_param(&self) -> (param: &String)
        ensures
            param@ == self.id@,
    {
        &self.id
    }
}

#[derive(Debug, PartialEq, Eq)]
pub struct TagRelationships {
    pub transactions: TagTransactionRelationships,
}

#[derive(Debug, PartialEq, Eq)]
pub struct TagTransactionRelationships {
    pub links: HashMap<String, String>,
}

/// A transaction.
#[derive(Debug, PartialEq, Eq)]
pub struct Transaction {
    pub resource_type: String,
    pub id: String,
    pub attributes: TransactionAttributes,
    pub relationships: TransactionRelationships,
    pub links: Option<HashMap<String, String>>,
}

#[derive(Debug, PartialEq, Eq)]
pub struct TransactionAttributes {
    pub status: TransactionStatus,
    pub raw_text: Option<String>,
    pub description: String,
    pub message: Option<String>,
    pub is_categorizable: bool,
    pub hold_info: Option<HoldInfo>,
    pub round_up: Option<RoundUp>,
    pub cashback: Option<Cashback>,
    pub amount: Money,
    pub foreign_amount: Option<Money>,
    pub card_purchase_method: Option<CardPurchaseMethod>,
    pub settled_at: Option<Timestamp>,
    pub created_at: Timestamp,
}

/// Whether a transaction is still held or has been settled.
#[derive(Debug, PartialEq, Eq)]
pub enum TransactionStatus {
    Held,
    Settled,
}

impl TransactionStatus {
    /// The name of the status as the service writes it.
    pub open spec fn text(&self) -> Seq<char> {
        match self {
            TransactionStatus::Held => "HELD"@,
            TransactionStatus::Settled => "SETTLED"@,
        }
    }

    /// The name of the status as the service writes it.
    pub fn to_string(&self) -> (name: String)
        ensures
            name@ == self.text(),
    {
        match self {
            TransactionStatus::Held => String::from_str("HELD"),
            TransactionStatus::Settled => String::from_str("SETTLED"),
        }
    }
}

#[derive(Debug, PartialEq, Eq)]
pub struct HoldInfo {
    pub amount: Money,
    pub foreign_amount: Option<Money>,
}

#[derive(Debug, PartialEq, Eq)]
pub struct RoundUp {
    pub amount: Money,
    pub boost_portion: Option<Money>,
}

#[derive(Debug, PartialEq, Eq)]
pub struct Cashback {
    pub description: String,
    pub amount: Money,
}

#[derive(Debug, PartialEq, Eq)]
pub struct CardPurchaseMethod {
    pub method: CardPurchaseMethodType,
    pub card_number_suffix: Option<String>,
}

/// How a card was used for a purchase.
#[derive(Debug, PartialEq, Eq)]
pub enum CardPurchaseMethodType {
    BarCode,
    OCR,
    CardPin,
    CardDetails,
    CardOnFile,
    Ecommerce,
    MagneticStripe,
    Contactless,
}

impl CardPurchaseMethodType {
    /// The name of the method as the service writes it.
    pub open spec fn text(&self) -> Seq<char> {
        match self {
            CardPurchaseMethodType::BarCode => "BAR_CODE"@,
            CardPurchaseMethodType::OCR => "OCR"@,
            CardPurchaseMethodType::CardPin => "CARD_PIN"@,
            CardPurchaseMethodType::CardDetails => "CARD_DETAILS"@,
            CardPurchaseMethodType::CardOnFile => "CARD_ON_FILE"@,
            CardPurchaseMethodType::Ecommerce => "ECOMMERCE"@,
            CardPurchaseMethodType::MagneticStripe => "MAGNETIC_STRIPE"@,
            CardPurchaseMethodType::Contactless => "CONTACTLESS"@,
        }
    }

    /// The name of the method as the service writes it.
    pub fn to_string(&self) -> (name: String)
        ensures
            name@ == self.text(),
    {
        match self {
            CardPurchaseMethodType::BarCode => String::from_str("BAR_CODE"),
            CardPurchaseMethodType::OCR => String::from_str("OCR"),
            CardPurchaseMethodType::CardPin => String::from_str("CARD_PIN"),
            CardPurchaseMethodType::CardDetails => String::from_str("CARD_DETAILS"),
            CardPurchaseMethodType::CardOnFile => String::from_str("CARD_ON_FILE"),
            CardPurchaseMethodType::Ecommerce => String::from_str("ECOMMERCE"),
            CardPurchaseMethodType::MagneticStripe => String::from_str("MAGNETIC_STRIPE"),
            CardPurchaseMethodType::Contactless => String::from_str("CONTACTLESS"),
        }
    }
}

#[derive(Debug, PartialEq, Eq)]
pub struct TransactionRelationships {
    pub account: TransactionAccountRelationship,
    pub transfer_account: TransactionTransferAccountRelationship,
    pub category: TransactionCategoryRelationship,
    pub parent_category: TransactionCategoryRelationship,
    pub tags: TransactionTagsRelationship,
}

#[derive(Debug, PartialEq, Eq)]
pub struct TransactionAccountRelationship {
    pub data: TransactionAccountRelationshipData,
    pub links: Option<HashMap<String, String>>,
}

#[derive(Debug, PartialEq, Eq)]
pub struct TransactionAccountRelationshipData {
    pub resource_type: String,
    pub id: String,
}

#[derive(Debug, PartialEq, Eq)]
pub struct TransactionTransferAccountRelationship {
    pub data: Option<TransactionTransferAccountRelationshipData>,
    pub links: Option<HashMap<String, String>>,
}

#[derive(Debug, PartialEq, Eq)]
pub struct TransactionTransferAccountRelationshipData {
    pub resource_type: String,
    pub id: String,
}

#[derive(Debug, PartialEq, Eq)]
pub struct TransactionCategoryRelationship {
    pub data: Option<TransactionCategoryRelationshipData>,
    pub links: Option<HashMap<String, String>>,
}

#[derive(Debug, PartialEq, Eq)]
pub struct TransactionCategoryRelationshipData {
    pub resource_type: String,
    pub id: String,
}

#[derive(Debug, PartialEq, Eq)]
pub struct TransactionTagsRelationship {
    pub data: Vec<TransactionTagsRelationshipData>,
    pub links: Option<HashMap<String, String>>,
}

#[derive(Debug, PartialEq, Eq)]
pub struct TransactionTagsRelationshipData {
    pub resource_type: String,
    pub id: String,
}

} // verus!
