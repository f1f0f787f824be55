use vstd::prelude::*;

use crate::encryption::Encryption;
use crate::masked::Secret;
use crate::timestamp;
use crate::timestamp::Timestamp;

verus! {

/// The role a connector plays for the merchant.
#[derive(Clone, Copy, Debug, PartialEq, Eq, Structural)]
pub enum ConnectorType {
    PaymentProcessor,
    PaymentVas,
    FinOperations,
    FizOperations,
    Networks,
    BankingEntities,
    NonBankingFinance,
}

/// The country a merchant's business is registered in, as an ISO 3166-1
/// alpha-2 code.
#[derive(Clone, Copy, Debug, PartialEq, Eq, Structural)]
pub enum CountryAlpha2 {
    Au,
    Br,
    Ca,
    De,
    Fr,
    Gb,
    In,
    Jp,
    Nl,
    Sg,
    Us,
    Za,
}

/// The persisted record of one merchant's binding to one payment connector,
/// as storage returns it.
#[derive(Clone, PartialEq)]
pub struct MerchantConnectorAccount {
    pub id: i32,
    pub merchant_id: String,
    pub connector_name: String,
    pub connector_account_details: Encryption,
    pub test_mode: Option<bool>,
    pub disabled: Option<bool>,
    pub merchant_connector_id: String,
    pub payment_methods_enabled: Option<Vec<serde_json::Value>>,
    pub connector_type: ConnectorType,
    pub metadata: Option<Secret<serde_json::Value>>,
    pub connector_label: String,
    pub business_country: CountryAlpha2,
    pub business_label: String,
    pub business_sub_label: Option<String>,
    pub frm_configs: Option<Secret<serde_json::Value>>,
    pub created_at: Timestamp,
    pub modified_at: Timestamp,
}

/// The insertion-time shape of an account record: optional wherever a
/// downstream default fills the field in, required where the caller must
/// supply it. Insertion itself belongs to the persistence collaborator.
#[derive(Clone, PartialEq)]
pub struct MerchantConnectorAccountNew {
    pub merchant_id: Option<String>,
    pub connector_type: Option<ConnectorType>,
    pub connector_name: Option<String>,
    pub connector_account_details: Option<Encryption>,
    pub test_mode: Option<bool>,
    pub disabled: Option<bool>,
    pub merchant_connector_id: String,
    pub payment_methods_enabled: Option<Vec<serde_json::Value>>,
    pub metadata: Option<Secret<serde_json::Value>>,
    pub connector_label: String,
    pub business_country: CountryAlpha2,
    pub business_label: String,
    pub business_sub_label: Option<String>,
    pub frm_configs: Option<Secret<serde_json::Value>>,
    pub created_at: Timestamp,
    pub modified_at: Timestamp,
}

/// A partial update request: each settable field is either set to a new value
/// or left unset, in which case the existing record's value is retained. A
/// fresh credentials blob travels inside a `Secret` wrapper until the merge
/// unwraps it. One variant today; further kinds of update are added as new
/// variants with merge rules of their own.
#[derive(Clone, PartialEq)]
pub enum MerchantConnectorAccountUpdate {
    Update {
        merchant_id: Option<String>,
        connector_type: Option<ConnectorType>,
        connector_name: Option<String>,
        connector_account_details: Option<Secret<Encryption>>,
        test_mode: Option<bool>,
        disabled: Option<bool>,
        merchant_connector_id: Option<String>,
        payment_methods_enabled: Option<Vec<serde_json::Value>>,
        metadata: Option<Secret<serde_json::Value>>,
        frm_configs: Option<Secret<serde_json::Value>>,
    },
}

/// The flattened, storage-ready form of an update request: the same settable
/// fields, plus `modified_at`, stamped mechanically when the form is
/// constructed rather than supplied by the caller.
#[derive(Clone, PartialEq)]
pub struct MerchantConnectorAccountUpdateInternal {
    pub merchant_id: Option<String>,
    pub connector_type: Option<ConnectorType>,
    pub connector_name: Option<String>,
    pub connector_account_details: Option<Secret<Encryption>>,
    pub test_mode: Option<bool>,
    pub disabled: Option<bool>,
    pub merchant_connector_id: Option<String>,
    pub payment_methods_enabled: Option<Vec<serde_json::Value>>,
    pub metadata: Option<Secret<serde_json::Value>>,
    pub frm_configs: Option<Secret<serde_json::Value>>,
    pub modified_at: Timestamp,
}

/// The merged value of a field the record always carries: the update's value
/// where one is set, the prior value otherwise.
pub open spec fn overridden<T>(update: Option<T>, prior: T) -> T {
    match update {
        Option::Some(v) => v,
        Option::None => prior,
    }
}

/// The merged value of a nullable field: an unset update leaves the field as
/// it was, set or not.
pub open spec fn overridden_nullable<T>(update: Option<T>, prior: Option<T>) -> Option<T> {
    match update {
        Option::Some(v) => Option::Some(v),
        Option::None => prior,
    }
}

/// What merging `update` into `source` yields: every settable field that the
/// update sets takes the update's value, every unset one keeps the source's;
/// the credentials blob, when supplied, is unwrapped from its secret wrapper
/// and, when absent, retained unchanged from the source; `modified_at` always
/// comes from the update; identity and creation-time fields are never touched.
pub open spec fn merged_account(
    update: MerchantConnectorAccountUpdateInternal,
    source: MerchantConnectorAccount,
    result: MerchantConnectorAccount,
) -> bool {
    &&& result.id == source.id
    &&& result.merchant_id == overridden(update.merchant_id, source.merchant_id)
    &&& result.connector_name == overridden(update.connector_name, source.connector_name)
    &&& result.connector_type == overridden(update.connector_type, source.connector_type)
    &&& (match update.connector_account_details {
        Option::Some(wrapped) => result.connector_account_details == wrapped.value(),
        Option::None => result.connector_account_details == source.connector_account_details,
    })
    &&& result.test_mode == overridden_nullable(update.test_mode, source.test_mode)
    &&& result.disabled == overridden_nullable(update.disabled, source.disabled)
    &&& result.merchant_connector_id == overridden(
        update.merchant_connector_id,
        source.merchant_connector_id,
    )
    &&& result.payment_methods_enabled == overridden_nullable(
        update.payment_methods_enabled,
        source.payment_methods_enabled,
    )
    &&& result.metadata == overridden_nullable(update.metadata, source.metadata)
    &&& result.frm_configs == overridden_nullable(update.frm_configs, source.frm_configs)
    &&& result.connector_label == source.connector_label
    &&& result.business_country == source.business_country
    &&& result.business_label == source.business_label
    &&& result.business_sub_label == source.business_sub_label
    &&& result.created_at == source.created_at
    &&& result.modified_at == update.modified_at
}

/// The merged value of a field the record always carries.
fn apply<T>(update: Option<T>, prior: T) -> (r: T)
    ensures
        r == overridden(update, prior),
{
    match update {
        Option::Some(v) => v,
        Option::None => prior,
    }
}

/// The merged value of a nullable field.
fn apply_nullable<T>(update: Option<T>, prior: Option<T>) -> (r: Option<T>)
    ensures
        r == overridden_nullable(update, prior),
{
    match update {
        Option::Some(v) => Option::Some(v),
        Option::None => prior,
    }
}

impl MerchantConnectorAccountUpdateInternal {
    /// True when the flattened form carries the same field settings as the
    /// given update request.
    pub open spec fn matches_update(self, update: MerchantConnectorAccountUpdate) -> bool {
        match update {
            MerchantConnectorAccountUpdate::Update {
                merchant_id,
                connector_type,
                connector_name,
                connector_account_details,
                test_mode,
                disabled,
                merchant_connector_id,
                payment_methods_enabled,
                metadata,
                frm_configs,
            } => {
                &&& self.merchant_id == merchant_id
                &&& self.connector_type == connector_type
                &&& self.connector_name == connector_name
                &&& self.connector_account_details == connector_account_details
                &&& self.test_mode == test_mode
                &&& self.disabled == disabled
                &&& self.merchant_connector_id == merchant_connector_id
                &&& self.payment_methods_enabled == payment_methods_enabled
                &&& self.metadata == metadata
                &&& self.frm_configs == frm_configs
            },
        }
    }

    /// Flattens an update request into the storage-ready form, taking
    /// `modified_at` from the caller.
    pub fn from_update_at(
        update: MerchantConnectorAccountUpdate,
        modified_at: Timestamp,
    ) -> (r: Self)
        ensures
            r.matches_update(update),
            r.modified_at == modified_at,
    {
        match update {
            MerchantConnectorAccountUpdate::Update {
                merchant_id,
                connector_type,
                connector_name,
                connector_account_details,
                test_mode,
                disabled,
                merchant_connector_id,
                payment_methods_enabled,
                metadata,
                frm_configs,
            } => MerchantConnectorAccountUpdateInternal {
                merchant_id,
                connector_type,
                connector_name,
                connector_account_details,
                test_mode,
                disabled,
                merchant_connector_id,
                payment_methods_enabled,
                metadata,
                frm_configs,
                modified_at,
            },
        }
    }

    /// Flattens an update request into the storage-ready form, stamping
    /// `modified_at` with the construction time.
    pub fn from_update(update: MerchantConnectorAccountUpdate) -> (r: Self)
        ensures
            r.matches_update(update),
    {
        let stamp = timestamp::now();
        Self::from_update_at(update, stamp)
    }

    /// Merges this partial update into the existing record: set fields
    /// override, unset fields are retained, and an update that carries no new
    /// credentials leaves the stored encrypted blob unchanged.
    pub fn create_account(self, source: MerchantConnectorAccount) -> (r: MerchantConnectorAccount)
        ensures
            merged_account(self, source, r),
    {
        let MerchantConnectorAccountUpdateInternal {
            merchant_id,
            connector_type,
            connector_name,
            connector_account_details,
            test_mode,
            disabled,
            merchant_connector_id,
            payment_methods_enabled,
            metadata,
            frm_configs,
            modified_at,
        } = self;
        let details = match connector_account_details {
            Option::Some(wrapped) => wrapped.expose(),
            Option::None => source.connector_account_details,
        };
        MerchantConnectorAccount {
            id: source.id,
            merchant_id: apply(merchant_id, source.merchant_id),
            connector_name: apply(connector_name, source.connector_name),
            connector_account_details: details,
            test_mode: apply_nullable(test_mode, source.test_mode),
            disabled: apply_nullable(disabled, source.disabled),
            merchant_connector_id: apply(merchant_connector_id, source.merchant_connector_id),
            payment_methods_enabled: apply_nullable(
                payment_methods_enabled,
                source.payment_methods_enabled,
            ),
            connector_type: apply(connector_type, source.connector_type),
            metadata: apply_nullable(metadata, source.metadata),
            connector_label: source.connector_label,
            business_country: source.business_country,
            business_label: source.business_label,
            business_sub_label: source.business_sub_label,
            frm_configs: apply_nullable(frm_configs, source.frm_configs),
            created_at: source.created_at,
            modified_at,
        }
    }
}

/// True when every settable field of the update is unset.
pub open spec fn all_unset(update: MerchantConnectorAccountUpdateInternal) -> bool {
    &&& update.merchant_id is None
    &&& update.connector_type is None
    &&& update.connector_name is None
    &&& update.connector_account_details is None
    &&& update.test_mode is None
    &&& update.disabled is None
    &&& update.merchant_connector_id is None
    &&& update.payment_methods_enabled is None
    &&& update.metadata is None
    &&& update.frm_configs is None
}

/// Identity law: merging an update with every settable field unset yields the
/// existing record unchanged, except that `modified_at` is taken from the
/// update's stamp.
pub proof fn lemma_merge_identity(
    update: MerchantConnectorAccountUpdateInternal,
    existing: MerchantConnectorAccount,
    result: MerchantConnectorAccount,
)
    requires
        all_unset(update),
        merged_account(update, existing, result),
    ensures
        result == (MerchantConnectorAccount { modified_at: update.modified_at, ..existing }),
{
}

/// Override law: every settable field the update sets comes out with the
/// update's value, every unset one with the existing record's value; the
/// identity and creation-time fields always come from the existing record,
/// and `modified_at` always from the update.
pub proof fn lemma_merge_override(
    update: MerchantConnectorAccountUpdateInternal,
    existing: MerchantConnectorAccount,
    result: MerchantConnectorAccount,
)
    requires
        merged_account(update, existing, result),
    ensures
        update.merchant_id is Some ==> result.merchant_id == update.merchant_id->Some_0,
        update.merchant_id is None ==> result.merchant_id == existing.merchant_id,
        update.connector_name is Some ==> result.connector_name == update.connector_name->Some_0,
        update.connector_name is None ==> result.connector_name == existing.connector_name,
        update.connector_type is Some ==> result.connector_type == update.connector_type->Some_0,
        update.connector_type is None ==> result.connector_type == existing.connector_type,
        update.connector_account_details is Some ==> result.connector_account_details
            == update.connector_account_details->Some_0.value(),
        update.connector_account_details is None ==> result.connector_account_details
            == existing.connector_account_details,
        update.test_mode is Some ==> result.test_mode == update.test_mode,
        update.test_mode is None ==> result.test_mode == existing.test_mode,
        update.disabled is Some ==> result.disabled == update.disabled,
        update.disabled is None ==> result.disabled == existing.disabled,
        update.merchant_connector_id is Some ==> result.merchant_connector_id
            == update.merchant_connector_id->Some_0,
        update.merchant_connector_id is None ==> result.merchant_connector_id
            == existing.merchant_connector_id,
        update.payment_methods_enabled is Some ==> result.payment_methods_enabled
            == update.payment_methods_enabled,
        update.payment_methods_enabled is None ==> result.payment_methods_enabled
            == existing.payment_methods_enabled,
        update.metadata is Some ==> result.metadata == update.metadata,
        update.metadata is None ==> result.metadata == existing.metadata,
        update.frm_configs is Some ==> result.frm_configs == update.frm_configs,
        update.frm_configs is None ==> result.frm_configs == existing.frm_configs,
        result.id == existing.id,
        result.connector_label == existing.connector_label,
        result.business_country == existing.business_country,
        result.business_label == existing.business_label,
        result.business_sub_label == existing.business_sub_label,
        result.created_at == existing.created_at,
        result.modified_at == update.modified_at,
{
}

/// Credential preservation: an update that supplies no new encrypted blob
/// leaves the existing record's credentials exactly as they were.
pub proof fn lemma_credentials_preserved(
    update: MerchantConnectorAccountUpdateInternal,
    existing: MerchantConnectorAccount,
    result: MerchantConnectorAccount,
)
    requires
        merged_account(update, existing, result),
        update.connector_account_details is None,
    ensures
        result.connector_account_details == existing.connector_account_details,
{
}

} // verus!
