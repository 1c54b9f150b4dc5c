//! Discount coupons: the typed values, their rows, and the codec between the
//! discount of a coupon and the document that a row keeps for it.
//!
//! A percentage discount is stored as `{"Percentage": "<decimal>"}`, a fixed
//! one as `{"Fixed": {"currency": "<code>", "amount": "<decimal>"}}`. Nothing
//! else decodes: a document of another shape is an error, never a default.

use crate::decimal::{decimal_text, parsed_decimal, Decimal};
use crate::document::{lemma_object_view, member, Document, DocumentView};
use crate::errors::{CodecFault, StoreError};
use crate::ident::{fresh_v7, Uuid};
use chrono::NaiveDateTime;
use vstd::prelude::*;

verus! {

/// A date and time without a time zone. It passes through this crate unread.
#[verifier::external_type_specification]
#[verifier::external_body]
pub struct ExNaiveDateTime(chrono::NaiveDateTime);

/// `<chrono::NaiveDateTime as Clone>::clone`.
///
/// Trusted: the clone is the date and time that was cloned.
pub assume_specification[ <chrono::NaiveDateTime as Clone>::clone ](
    moment: &chrono::NaiveDateTime,
) -> (copy: chrono::NaiveDateTime)
    ensures
        copy == *moment,
;

/// A coupon, as the domain sees it.
#[derive(Debug, Clone, PartialEq, Eq)]
pub struct Coupon {
    pub id: Uuid,
    pub code: String,
    pub description: String,
    pub tenant_id: Uuid,
    pub discount: CouponDiscount,
    pub expires_at: Option<NaiveDateTime>,
    pub redemption_limit: Option<i32>,
    pub recurring_value: i32,
    pub reusable: bool,
    pub created_at: NaiveDateTime,
    pub updated_at: NaiveDateTime,
}

/// A coupon to create.
#[derive(Debug, Clone, PartialEq, Eq)]
pub struct CouponNew {
    pub code: String,
    pub description: String,
    pub tenant_id: Uuid,
    pub discount: CouponDiscount,
    pub expires_at: Option<NaiveDateTime>,
    pub redemption_limit: Option<i32>,
    pub recurring_value: i32,
    pub reusable: bool,
}

/// A partial update of a coupon: a field that is `None` is left as it is.
#[derive(Debug, Clone, PartialEq, Eq)]
pub struct CouponPatch {
    pub id: Uuid,
    pub tenant_id: Uuid,
    pub description: Option<String>,
    pub discount: Option<CouponDiscount>,
    pub updated_at: NaiveDateTime,
}

/// A coupon as its row holds it, with the discount as a document.
#[derive(Debug, PartialEq, Eq)]
pub struct CouponRow {
    pub id: Uuid,
    pub code: String,
    pub description: String,
    pub tenant_id: Uuid,
    pub discount: Document,
    pub expires_at: Option<NaiveDateTime>,
    pub redemption_limit: Option<i32>,
    pub recurring_value: i32,
    pub reusable: bool,
    pub created_at: NaiveDateTime,
    pub updated_at: NaiveDateTime,
}

/// The row of a coupon to insert.
#[derive(Debug, PartialEq, Eq)]
pub struct CouponRowNew {
    pub id: Uuid,
    pub code: String,
    pub description: String,
    pub tenant_id: Uuid,
    pub discount: Document,
    pub expires_at: Option<NaiveDateTime>,
    pub redemption_limit: Option<i32>,
    pub recurring_value: i32,
    pub reusable: bool,
}

/// The changes to write to the row of a coupon: a field that is `None` is not
/// written.
#[derive(Debug, PartialEq, Eq)]
pub struct CouponRowPatch {
    pub id: Uuid,
    pub tenant_id: Uuid,
    pub description: Option<String>,
    pub discount: Option<Document>,
    pub updated_at: NaiveDateTime,
}

/// The discount that a coupon grants.
#[derive(Debug, Clone, PartialEq, Eq)]
pub enum CouponDiscount {
    /// A fraction of the price.
    Percentage(Decimal),
    /// An amount in a currency.
    Fixed { currency: String, amount: Decimal },
}

/// What a [`CouponDiscount`] holds, with the currency code as a sequence.
pub ghost enum CouponDiscountView {
    Percentage(Decimal),
    Fixed { currency: Seq<char>, amount: Decimal },
}

impl View for CouponDiscount {
    type V = CouponDiscountView;

    open spec fn view(&self) -> CouponDiscountView {
        match self {
            CouponDiscount::Percentage(fraction) => CouponDiscountView::Percentage(*fraction),
            CouponDiscount::Fixed { currency, amount } => CouponDiscountView::Fixed {
                currency: currency@,
                amount: *amount,
            },
        }
    }
}

impl CouponDiscountView {
    /// The decimal of the discount.
    pub open spec fn decimal(self) -> Decimal {
        match self {
            CouponDiscountView::Percentage(fraction) => fraction,
            CouponDiscountView::Fixed { currency, amount } => amount,
        }
    }

    /// The decimal of the discount is within bounds, so the discount can be stored.
    pub open spec fn wf(self) -> bool {
        self.decimal().wf()
    }

    /// The text that is written for the decimal of the discount reads back as
    /// that decimal.
    pub open spec fn reads_back(self) -> bool {
        parsed_decimal(decimal_text(self.decimal())) == Some(self.decimal())
    }
}

/// The discriminator of a percentage discount.
pub open spec fn percentage_tag() -> Seq<char> {
    "Percentage"@
}

/// The discriminator of a fixed discount.
pub open spec fn fixed_tag() -> Seq<char> {
    "Fixed"@
}

/// The key of the currency code in the payload of a fixed discount.
pub open spec fn currency_key() -> Seq<char> {
    "currency"@
}

/// The key of the amount in the payload of a fixed discount.
pub open spec fn amount_key() -> Seq<char> {
    "amount"@
}

/// The document that stores a discount.
pub open spec fn discount_document(discount: CouponDiscountView) -> DocumentView {
    match discount {
        CouponDiscountView::Percentage(fraction) => DocumentView::Object(
            seq![(percentage_tag(), DocumentView::Text(decimal_text(fraction)))],
        ),
        CouponDiscountView::Fixed { currency, amount } => DocumentView::Object(
            seq![
                (
                    fixed_tag(),
                    DocumentView::Object(
                        seq![
                            (currency_key(), DocumentView::Text(currency)),
                            (amount_key(), DocumentView::Text(decimal_text(amount))),
                        ],
                    ),
                ),
            ],
        ),
    }
}

/// The decimal that a payload field stands for: a text that reads as a decimal.
pub open spec fn decoded_decimal(field: DocumentView) -> Result<Decimal, CodecFault> {
    match field {
        DocumentView::Text(text) => match parsed_decimal(text) {
            Some(value) => Ok(value),
            None => Err(CodecFault::InvalidDecimal),
        },
        _ => Err(CodecFault::InvalidPayload),
    }
}

/// The fixed discount that a payload stands for: an object of exactly the two
/// members `currency`, a text, and `amount`, the text of a decimal, in either
/// order.
pub open spec fn decoded_fixed(payload: DocumentView) -> Result<CouponDiscountView, CodecFault> {
    match payload {
        DocumentView::Object(fields) => match (
            member(fields, currency_key()),
            member(fields, amount_key()),
        ) {
            (Some(code), Some(amount)) => if fields.len() != 2 {
                Err(CodecFault::UnexpectedField)
            } else {
                match code {
                    DocumentView::Text(currency) => match decoded_decimal(amount) {
                        Ok(amount) => Ok(CouponDiscountView::Fixed { currency, amount }),
                        Err(fault) => Err(fault),
                    },
                    _ => Err(CodecFault::InvalidPayload),
                }
            },
            _ => Err(CodecFault::MissingField),
        },
        _ => Err(CodecFault::InvalidPayload),
    }
}

/// The discount that a stored document stands for, or why it stands for none.
pub open spec fn decoded_discount(document: DocumentView) -> Result<
    CouponDiscountView,
    CodecFault,
> {
    match document {
        DocumentView::Object(members) => if members.len() != 1 {
            Err(CodecFault::NotOneVariant)
        } else if members[0].0 == percentage_tag() {
            match decoded_decimal(members[0].1) {
                Ok(fraction) => Ok(CouponDiscountView::Percentage(fraction)),
                Err(fault) => Err(fault),
            }
        } else if members[0].0 == fixed_tag() {
            decoded_fixed(members[0].1)
        } else {
            Err(CodecFault::UnknownVariant)
        },
        _ => Err(CodecFault::NotAnObject),
    }
}

/// The four keys of the stored form differ from one another where the codec
/// tells them apart.
pub proof fn lemma_keys_differ()
    ensures
        percentage_tag() != fixed_tag(),
        currency_key() != amount_key(),
{
    reveal_strlit("Percentage");
    reveal_strlit("Fixed");
    reveal_strlit("currency");
    reveal_strlit("amount");
    assert(percentage_tag().len() == 10);
    assert(fixed_tag().len() == 5);
    assert(currency_key().len() == 8);
    assert(amount_key().len() == 6);
}

/// Decoding the document that stores a discount gives the discount back,
/// wherever the text written for its decimal reads back as that decimal.
pub proof fn lemma_round_trip(discount: CouponDiscountView)
    requires
        discount.reads_back(),
    ensures
        decoded_discount(discount_document(discount)) == Ok::<CouponDiscountView, CodecFault>(
            discount,
        ),
{
    lemma_keys_differ();
    match discount {
        CouponDiscountView::Percentage(fraction) => {},
        CouponDiscountView::Fixed { currency, amount } => {
            let fields = seq![
                (currency_key(), DocumentView::Text(currency)),
                (amount_key(), DocumentView::Text(decimal_text(amount))),
            ];
            assert(fields.drop_first() =~= seq![
                (amount_key(), DocumentView::Text(decimal_text(amount))),
            ]);
            assert(member(fields, currency_key()) == Some(DocumentView::Text(currency)));
            assert(member(fields.drop_first(), amount_key()) == Some(
                DocumentView::Text(decimal_text(amount)),
            ));
            assert(member(fields, amount_key()) == Some(
                DocumentView::Text(decimal_text(amount)),
            ));
        },
    }
}

/// The decimal of a payload field.
fn decode_decimal(field: &Document) -> (r: Result<Decimal, CodecFault>)
    ensures
        r == decoded_decimal(field@),
{
    match field {
        Document::Text(text) => match Decimal::from_text(text.as_str()) {
            Some(value) => Ok(value),
            None => Err(CodecFault::InvalidDecimal),
        },
        _ => Err(CodecFault::InvalidPayload),
    }
}

/// The fixed discount of a payload.
fn decode_fixed(payload: &Document) -> (r: Result<CouponDiscount, CodecFault>)
    ensures
        match decoded_fixed(payload@) {
            Ok(discount) => r matches Ok(decoded) && decoded@ == discount,
            Err(fault) => r matches Err(found) && found == fault,
        },
{
    match payload {
        Document::Object(_) => match (payload.get("currency"), payload.get("amount")) {
            (Some(code), Some(amount)) => {
                if payload.member_count() != 2 {
                    return Err(CodecFault::UnexpectedField);
                }
                match code {
                    Document::Text(currency) => match decode_decimal(amount) {
                        Ok(amount) => Ok(CouponDiscount::Fixed { currency: currency.clone(), amount }),
                        Err(fault) => Err(fault),
                    },
                    _ => Err(CodecFault::InvalidPayload),
                }
            },
            _ => Err(CodecFault::MissingField),
        },
        _ => Err(CodecFault::InvalidPayload),
    }
}

impl CouponDiscount {
    /// The document that stores the discount.
    ///
    /// A discount whose decimal is out of bounds has no stored form. For any
    /// other, the document is the one of [`discount_document`], and it decodes
    /// to this discount again.
    pub fn to_document(&self) -> (r: Result<Document, CodecFault>)
        ensures
            self@.wf() ==> (r matches Ok(document) && document@ == discount_document(self@)
                && decoded_discount(document@) == Ok::<CouponDiscountView, CodecFault>(self@)),
            !self@.wf() ==> (r matches Err(fault) && fault == CodecFault::DecimalOutOfRange),
    {
        match self {
            CouponDiscount::Percentage(fraction) => match fraction.to_text() {
                Some(text) => {
                    let mut members: Vec<(String, Document)> = Vec::new();
                    members.push(("Percentage".to_owned(), Document::Text(text)));
                    let document = Document::Object(members);
                    proof {
                        lemma_object_view(document->Object_0);
                        assert(document@->Object_0 =~= discount_document(self@)->Object_0);
                        lemma_round_trip(self@);
                    }
                    Ok(document)
                },
                None => Err(CodecFault::DecimalOutOfRange),
            },
            CouponDiscount::Fixed { currency, amount } => match amount.to_text() {
                Some(text) => {
                    let mut fields: Vec<(String, Document)> = Vec::new();
                    fields.push(("currency".to_owned(), Document::Text(currency.clone())));
                    fields.push(("amount".to_owned(), Document::Text(text)));
                    let payload = Document::Object(fields);
                    proof {
                        lemma_object_view(payload->Object_0);
                        assert(payload@->Object_0 =~= seq![
                            (currency_key(), DocumentView::Text(currency@)),
                            (amount_key(), DocumentView::Text(decimal_text(*amount))),
                        ]);
                    }
                    let mut members: Vec<(String, Document)> = Vec::new();
                    members.push(("Fixed".to_owned(), payload));
                    let document = Document::Object(members);
                    proof {
                        lemma_object_view(document->Object_0);
                        assert(document@->Object_0 =~= discount_document(self@)->Object_0);
                        lemma_round_trip(self@);
                    }
                    Ok(document)
                },
                None => Err(CodecFault::DecimalOutOfRange),
            },
        }
    }

    /// The discount that a stored document stands for.
    ///
    /// Succeeds on exactly the documents that [`decoded_discount`] reads, with
    /// the discount it reads; any other document gives the fault that tells
    /// what is wrong with it.
    pub fn from_document(document: &Document) -> (r: Result<CouponDiscount, CodecFault>)
        ensures
            match decoded_discount(document@) {
                Ok(discount) => r matches Ok(decoded) && decoded@ == discount,
                Err(fault) => r matches Err(found) && found == fault,
            },
    {
        match document {
            Document::Object(members) => {
                proof {
                    lemma_object_view(*members);
                }
                if members.len() != 1 {
                    return Err(CodecFault::NotOneVariant);
                }
                if members[0].0 == "Percentage".to_owned() {
                    match decode_decimal(&members[0].1) {
                        Ok(fraction) => Ok(CouponDiscount::Percentage(fraction)),
                        Err(fault) => Err(fault),
                    }
                } else if members[0].0 == "Fixed".to_owned() {
                    decode_fixed(&members[0].1)
                } else {
                    Err(CodecFault::UnknownVariant)
                }
            },
            _ => Err(CodecFault::NotAnObject),
        }
    }
}

/// The message of the error for a discount that cannot be stored.
pub open spec fn encode_message() -> Seq<char> {
    "Failed to serialize coupon discount"@
}

/// The message of the error for a stored discount that cannot be read.
pub open spec fn decode_message() -> Seq<char> {
    "Failed to deserialize coupon discount"@
}

impl CouponRow {
    /// The coupon holds what the row holds, field by field, but for the discount.
    pub open spec fn carried_by(&self, coupon: &Coupon) -> bool {
        &&& coupon.id == self.id
        &&& coupon.code == self.code
        &&& coupon.description == self.description
        &&& coupon.tenant_id == self.tenant_id
        &&& coupon.expires_at == self.expires_at
        &&& coupon.redemption_limit == self.redemption_limit
        &&& coupon.recurring_value == self.recurring_value
        &&& coupon.reusable == self.reusable
        &&& coupon.created_at == self.created_at
        &&& coupon.updated_at == self.updated_at
    }

    /// The coupon of a row.
    ///
    /// Succeeds exactly when the stored discount decodes; every other field is
    /// carried over. A discount that does not decode is an error, whatever the
    /// rest of the row holds.
    pub fn try_into(self) -> (r: Result<Coupon, StoreError>)
        ensures
            match decoded_discount(self.discount@) {
                Ok(discount) => r matches Ok(coupon) && coupon.discount@ == discount
                    && self.carried_by(&coupon),
                Err(fault) => r matches Err(error) && error.is_serde_error(
                    decode_message(),
                    fault,
                ),
            },
    {
        match CouponDiscount::from_document(&self.discount) {
            Ok(discount) => Ok(
                Coupon {
                    id: self.id,
                    code: self.code,
                    description: self.description,
                    tenant_id: self.tenant_id,
                    discount,
                    expires_at: self.expires_at,
                    redemption_limit: self.redemption_limit,
                    recurring_value: self.recurring_value,
                    reusable: self.reusable,
                    created_at: self.created_at,
                    updated_at: self.updated_at,
                },
            ),
            Err(fault) => Err(
                StoreError::SerdeError("Failed to deserialize coupon discount".to_owned(), fault),
            ),
        }
    }

    /// The row after the changes of `patch` are written to it.
    ///
    /// A patch is for the row of its `id` and `tenant_id`; any other row stays
    /// as it is. On its own row it replaces the fields it holds a value for,
    /// leaves the others as they are, and always sets `updated_at`.
    pub open spec fn patched(self, patch: CouponRowPatch) -> CouponRow {
        if patch.id == self.id && patch.tenant_id == self.tenant_id {
            CouponRow {
                description: match patch.description {
                    Some(description) => description,
                    None => self.description,
                },
                discount: match patch.discount {
                    Some(discount) => discount,
                    None => self.discount,
                },
                updated_at: patch.updated_at,
                ..self
            }
        } else {
            self
        }
    }

    /// Writes the changes of `patch` to the row.
    pub fn apply(self, patch: CouponRowPatch) -> (r: CouponRow)
        ensures
            r == self.patched(patch),
    {
        if patch.id == self.id && patch.tenant_id == self.tenant_id {
            let description = match patch.description {
                Some(description) => description,
                None => self.description,
            };
            let discount = match patch.discount {
                Some(discount) => discount,
                None => self.discount,
            };
            CouponRow {
                id: self.id,
                code: self.code,
                description,
                tenant_id: self.tenant_id,
                discount,
                expires_at: self.expires_at,
                redemption_limit: self.redemption_limit,
                recurring_value: self.recurring_value,
                reusable: self.reusable,
                created_at: self.created_at,
                updated_at: patch.updated_at,
            }
        } else {
            self
        }
    }
}

impl CouponNew {
    /// The row holds what the coupon to create holds, field by field, but for
    /// the identity and the discount.
    pub open spec fn carried_by(&self, row: &CouponRowNew) -> bool {
        &&& row.code == self.code
        &&& row.description == self.description
        &&& row.tenant_id == self.tenant_id
        &&& row.expires_at == self.expires_at
        &&& row.redemption_limit == self.redemption_limit
        &&& row.recurring_value == self.recurring_value
        &&& row.reusable == self.reusable
    }

    /// The row to insert for this coupon under the identity `id`.
    ///
    /// Succeeds exactly when the discount can be stored. The row then has the
    /// given identity and the document of the discount, and carries every
    /// other field over.
    pub fn into_row(self, id: Uuid) -> (r: Result<CouponRowNew, StoreError>)
        ensures
            self.discount@.wf() ==> (r matches Ok(row) && row.id == id && row.discount@
                == discount_document(self.discount@) && self.carried_by(&row)),
            !self.discount@.wf() ==> (r matches Err(error) && error.is_serde_error(
                encode_message(),
                CodecFault::DecimalOutOfRange,
            )),
    {
        match self.discount.to_document() {
            Ok(discount) => Ok(
                CouponRowNew {
                    id,
                    code: self.code,
                    description: self.description,
                    tenant_id: self.tenant_id,
                    discount,
                    expires_at: self.expires_at,
                    redemption_limit: self.redemption_limit,
                    recurring_value: self.recurring_value,
                    reusable: self.reusable,
                },
            ),
            Err(fault) => Err(
                StoreError::SerdeError("Failed to serialize coupon discount".to_owned(), fault),
            ),
        }
    }

    /// The row to insert for this coupon, under a fresh identity.
    ///
    /// Succeeds exactly when the discount can be stored. The identity is a new
    /// version 7 one; the rest of the row is that of [`CouponNew::into_row`].
    pub fn try_into(self) -> (r: Result<CouponRowNew, StoreError>)
        ensures
            self.discount@.wf() ==> (r matches Ok(row) && row.id.is_v7() && row.discount@
                == discount_document(self.discount@) && self.carried_by(&row)),
            !self.discount@.wf() ==> (r matches Err(error) && error.is_serde_error(
                encode_message(),
                CodecFault::DecimalOutOfRange,
            )),
    {
        let id = fresh_v7();
        self.into_row(id)
    }
}

impl CouponPatch {
    /// The changes hold what the patch holds: the same target, description and
    /// time, and a document exactly where the patch has a discount, the one
    /// that stores it.
    pub open spec fn carried_by(&self, changes: &CouponRowPatch) -> bool {
        &&& changes.id == self.id
        &&& changes.tenant_id == self.tenant_id
        &&& changes.description == self.description
        &&& changes.updated_at == self.updated_at
        &&& match self.discount {
            Some(discount) => changes.discount matches Some(document) && document@
                == discount_document(discount@),
            None => changes.discount is None,
        }
    }

    /// The discount of the patch, if it has one, can be stored.
    pub open spec fn wf(&self) -> bool {
        self.discount matches Some(discount) ==> discount@.wf()
    }

    /// The changes to write to the row for this patch.
    ///
    /// Succeeds exactly when the discount, if the patch has one, can be
    /// stored. A patch without a discount gives changes without a document.
    pub fn try_into(self) -> (r: Result<CouponRowPatch, StoreError>)
        ensures
            self.wf() ==> (r matches Ok(changes) && self.carried_by(&changes)),
            !self.wf() ==> (r matches Err(error) && error.is_serde_error(
                encode_message(),
                CodecFault::DecimalOutOfRange,
            )),
    {
        let discount = match self.discount {
            Some(discount) => match discount.to_document() {
                Ok(document) => Some(document),
                Err(fault) => {
                    return Err(
                        StoreError::SerdeError(
                            "Failed to serialize coupon discount".to_owned(),
                            fault,
                        ),
                    );
                },
            },
            None => None,
        };
        Ok(
            CouponRowPatch {
                id: self.id,
                tenant_id: self.tenant_id,
                description: self.description,
                discount,
                updated_at: self.updated_at,
            },
        )
    }
}

/// A patch without a discount leaves the stored discount of its row as it
/// is; a patch with a discount replaces it by the document of that discount.
pub proof fn lemma_patch_partiality(row: CouponRow, patch: CouponPatch, changes: CouponRowPatch)
    requires
        patch.carried_by(&changes),
        patch.id == row.id,
        patch.tenant_id == row.tenant_id,
    ensures
        patch.discount is None ==> row.patched(changes).discount == row.discount,
        patch.discount matches Some(discount) ==> row.patched(changes).discount@
            == discount_document(discount@),
{
}

/// A patch changes nothing in a row that it is not for.
pub proof fn lemma_patch_targets(row: CouponRow, changes: CouponRowPatch)
    requires
        changes.id != row.id || changes.tenant_id != row.tenant_id,
    ensures
        row.patched(changes) == row,
{
}

/// A document whose one member stands under a discriminator other than the two
/// known ones stands for no discount, whatever its payload is.
pub proof fn lemma_unknown_discriminator_rejected(tag: Seq<char>, payload: DocumentView)
    requires
        tag != percentage_tag(),
        tag != fixed_tag(),
    ensures
        decoded_discount(DocumentView::Object(seq![(tag, payload)])) == Err::<
            CouponDiscountView,
            CodecFault,
        >(CodecFault::UnknownVariant),
{
}

/// A fixed discount whose payload lacks the currency or the amount stands for
/// no discount, whatever else the payload holds.
pub proof fn lemma_missing_field_rejected(fields: Seq<(Seq<char>, DocumentView)>)
    requires
        member(fields, currency_key()) is None || member(fields, amount_key()) is None,
    ensures
        decoded_discount(
            DocumentView::Object(seq![(fixed_tag(), DocumentView::Object(fields))]),
        ) == Err::<CouponDiscountView, CodecFault>(CodecFault::MissingField),
{
    lemma_keys_differ();
}

/// A percentage discount whose payload is not a text stands for no discount.
pub proof fn lemma_missing_fraction_rejected(payload: DocumentView)
    requires
        !(payload is Text),
    ensures
        decoded_discount(DocumentView::Object(seq![(percentage_tag(), payload)])) == Err::<
            CouponDiscountView,
            CodecFault,
        >(CodecFault::InvalidPayload),
{
}

/// Only the two stored forms decode: a document that stands for a discount is
/// an object of one member, under the discriminator of that discount's
/// variant, whose payload holds the texts that the discount was read from.
pub proof fn lemma_decoded_shape(document: DocumentView)
    requires
        decoded_discount(document) is Ok,
    ensures
        document matches DocumentView::Object(members) && members.len() == 1 && (
        match decoded_discount(document)->Ok_0 {
            CouponDiscountView::Percentage(fraction) => {
                &&& members[0].0 == percentage_tag()
                &&& members[0].1 matches DocumentView::Text(text) && parsed_decimal(text) == Some(
                    fraction,
                )
            },
            CouponDiscountView::Fixed { currency, amount } => {
                &&& members[0].0 == fixed_tag()
                &&& members[0].1 matches DocumentView::Object(fields) && fields.len() == 2
                    && member(fields, currency_key()) == Some(DocumentView::Text(currency))
                    && (member(fields, amount_key()) matches Some(DocumentView::Text(text))
                    && parsed_decimal(text) == Some(amount))
            },
        }),
{
    lemma_keys_differ();
}

} // verus!
