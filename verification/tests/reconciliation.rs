use merchant_connector::account::{
    ConnectorType, CountryAlpha2, MerchantConnectorAccount, MerchantConnectorAccountNew,
    MerchantConnectorAccountUpdate, MerchantConnectorAccountUpdateInternal,
};
use merchant_connector::encryption::Encryption;
use merchant_connector::masked::Secret;
use merchant_connector::timestamp::Timestamp;

fn t(unix_nanos: i128) -> Timestamp {
    Timestamp { unix_nanos }
}

fn existing_account() -> MerchantConnectorAccount {
    MerchantConnectorAccount {
        id: 42,
        merchant_id: "M1".to_string(),
        connector_name: "stripe".to_string(),
        connector_account_details: Encryption { ciphertext: vec![0xde, 0xad, 0xbe, 0xef] },
        test_mode: Some(false),
        disabled: None,
        merchant_connector_id: "mca_1".to_string(),
        payment_methods_enabled: Some(vec![serde_json::Value::String("card".to_string())]),
        connector_type: ConnectorType::PaymentProcessor,
        metadata: Some(Secret::new(serde_json::Value::Bool(true))),
        connector_label: "stripe_US_default".to_string(),
        business_country: CountryAlpha2::Us,
        business_label: "default".to_string(),
        business_sub_label: None,
        frm_configs: None,
        created_at: t(1_000),
        modified_at: t(1_000),
    }
}

fn unset_update(modified_at: Timestamp) -> MerchantConnectorAccountUpdateInternal {
    MerchantConnectorAccountUpdateInternal {
        merchant_id: None,
        connector_type: None,
        connector_name: None,
        connector_account_details: None,
        test_mode: None,
        disabled: None,
        merchant_connector_id: None,
        payment_methods_enabled: None,
        metadata: None,
        frm_configs: None,
        modified_at,
    }
}

#[test]
fn merge_identity_keeps_everything_but_modified_at() {
    let existing = existing_account();
    let merged = unset_update(t(2_000)).create_account(existing.clone());
    let expected = MerchantConnectorAccount { modified_at: t(2_000), ..existing };
    assert!(merged == expected);
}

#[test]
fn merge_overrides_exactly_the_set_fields() {
    let existing = existing_account();
    let update = MerchantConnectorAccountUpdateInternal {
        merchant_id: Some("M2".to_string()),
        connector_name: Some("adyen".to_string()),
        connector_type: Some(ConnectorType::PaymentVas),
        test_mode: Some(true),
        disabled: Some(true),
        merchant_connector_id: Some("mca_2".to_string()),
        payment_methods_enabled: Some(vec![serde_json::Value::String("wallet".to_string())]),
        metadata: Some(Secret::new(serde_json::Value::Null)),
        frm_configs: Some(Secret::new(serde_json::Value::Bool(false))),
        ..unset_update(t(3_000))
    };
    let merged = update.create_account(existing.clone());
    assert_eq!(merged.merchant_id, "M2");
    assert_eq!(merged.connector_name, "adyen");
    assert_eq!(merged.connector_type, ConnectorType::PaymentVas);
    assert_eq!(merged.test_mode, Some(true));
    assert_eq!(merged.disabled, Some(true));
    assert_eq!(merged.merchant_connector_id, "mca_2");
    assert_eq!(
        merged.payment_methods_enabled,
        Some(vec![serde_json::Value::String("wallet".to_string())])
    );
    assert!(merged.metadata == Some(Secret::new(serde_json::Value::Null)));
    assert!(merged.frm_configs == Some(Secret::new(serde_json::Value::Bool(false))));
    // untouched fields carry over from the existing record
    assert_eq!(merged.id, existing.id);
    assert!(merged.connector_account_details == existing.connector_account_details);
    assert_eq!(merged.connector_label, existing.connector_label);
    assert_eq!(merged.business_country, existing.business_country);
    assert_eq!(merged.business_label, existing.business_label);
    assert_eq!(merged.business_sub_label, existing.business_sub_label);
    assert!(merged.created_at == existing.created_at);
    assert!(merged.modified_at == t(3_000));
}

#[test]
fn merge_without_new_credentials_preserves_the_blob() {
    // chosen policy: an update that carries no new encrypted blob retains the
    // prior one unchanged, rather than resetting it to an empty default
    let existing = existing_account();
    let update = MerchantConnectorAccountUpdateInternal {
        disabled: Some(true),
        ..unset_update(t(4_000))
    };
    let merged = update.create_account(existing.clone());
    assert!(merged.connector_account_details == existing.connector_account_details);
    assert_eq!(merged.connector_account_details.ciphertext, vec![0xde, 0xad, 0xbe, 0xef]);
}

#[test]
fn merge_with_new_credentials_unwraps_the_secret() {
    let existing = existing_account();
    let fresh = Encryption { ciphertext: vec![9, 9, 9] };
    let update = MerchantConnectorAccountUpdateInternal {
        connector_account_details: Some(Secret::new(fresh.clone())),
        ..unset_update(t(5_000))
    };
    let merged = update.create_account(existing);
    assert!(merged.connector_account_details == fresh);
    assert_eq!(merged.connector_account_details.ciphertext, vec![9, 9, 9]);
}

#[test]
fn concrete_scenario_disable_connector() {
    let t0 = t(1_000);
    let t1 = t(10_000);
    let existing = existing_account();
    assert!(existing.modified_at == t0);
    assert_eq!(existing.disabled, None);
    let update = MerchantConnectorAccountUpdate::Update {
        merchant_id: None,
        connector_type: None,
        connector_name: None,
        connector_account_details: None,
        test_mode: None,
        disabled: Some(true),
        merchant_connector_id: None,
        payment_methods_enabled: None,
        metadata: None,
        frm_configs: None,
    };
    let internal = MerchantConnectorAccountUpdateInternal::from_update_at(update, t1);
    let merged = internal.create_account(existing.clone());
    assert_eq!(merged.merchant_id, "M1");
    assert_eq!(merged.connector_name, "stripe");
    assert_eq!(merged.disabled, Some(true));
    assert!(merged.connector_account_details == existing.connector_account_details);
    assert!(merged.modified_at == t1);
    assert!(existing.modified_at.is_before(merged.modified_at));
}

#[test]
fn from_update_stamps_the_construction_time() {
    let update = MerchantConnectorAccountUpdate::Update {
        merchant_id: Some("M9".to_string()),
        connector_type: None,
        connector_name: None,
        connector_account_details: None,
        test_mode: None,
        disabled: Some(false),
        merchant_connector_id: None,
        payment_methods_enabled: None,
        metadata: None,
        frm_configs: None,
    };
    let internal = MerchantConnectorAccountUpdateInternal::from_update(update);
    assert_eq!(internal.merchant_id, Some("M9".to_string()));
    assert_eq!(internal.disabled, Some(false));
    assert_eq!(internal.test_mode, None);
    // the stamp is the wall clock at construction: well after the epoch
    let year_2001 = t(1_000_000_000_000_000_000);
    assert!(year_2001.is_before(internal.modified_at));
}

#[test]
fn secret_expose_returns_the_wrapped_value() {
    let secret = Secret::new(Encryption { ciphertext: vec![5, 6] });
    let exposed = secret.expose();
    assert_eq!(exposed.ciphertext, vec![5, 6]);
}

#[test]
fn insertion_shape_requires_only_the_structural_fields() {
    let new_account = MerchantConnectorAccountNew {
        merchant_id: None,
        connector_type: None,
        connector_name: None,
        connector_account_details: None,
        test_mode: None,
        disabled: None,
        merchant_connector_id: "mca_7".to_string(),
        payment_methods_enabled: None,
        metadata: None,
        connector_label: "stripe_US_default".to_string(),
        business_country: CountryAlpha2::Us,
        business_label: "default".to_string(),
        business_sub_label: None,
        frm_configs: None,
        created_at: t(1_000),
        modified_at: t(1_000),
    };
    assert_eq!(new_account.merchant_connector_id, "mca_7");
    assert!(new_account.created_at == new_account.modified_at);
    assert_eq!(new_account.merchant_id, None);
}

#[test]
fn timestamp_ordering() {
    assert!(t(1).is_before(t(2)));
    assert!(!t(2).is_before(t(1)));
    assert!(!t(2).is_before(t(2)));
}
