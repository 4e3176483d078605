use core_foundation_utils::error::MetadataError;
use core_foundation_utils::prelude::{KMDItem, KMDItemTypes};

#[test]
fn message_of_disconnect() {
    assert_eq!(MetadataError::Disconnect("broken pipe".to_string()).message(), "data store disconnected");
}

#[test]
fn message_of_redaction() {
    assert_eq!(
        MetadataError::Redaction("kMDItemPath".to_string()).message(),
        "the data for key `kMDItemPath` is not available"
    );
}

#[test]
fn message_of_null_item() {
    assert_eq!(
        MetadataError::NullItem { item: "/no/such/file".to_string() }.message(),
        "item (/no/such/file) is null"
    );
}

#[test]
fn message_of_null_attribute() {
    assert_eq!(
        MetadataError::NullAttribute { attr: "kMDItemKind".to_string() }.message(),
        "attribute (kMDItemKind) is null"
    );
}

#[test]
fn message_of_conversion_error() {
    assert_eq!(
        MetadataError::ConversionError {
            attr: "content_type".to_string(),
            real_type: "string".to_string()
        }
        .message(),
        "failed to get (content_type) as (desired_type). value is of type (string)"
    );
}

#[test]
fn message_of_the_rest() {
    assert_eq!(MetadataError::Unknown.message(), "unknown data store error");
    assert_eq!(MetadataError::QueryCreationFailed.message(), "failed to create query");
    assert_eq!(MetadataError::QueryExecutionFailed.message(), "failed to execute query");
}

#[test]
fn item_types_name_their_keys() {
    assert_eq!(KMDItemTypes::UserTags.into_ref(), "kMDItemUserTags");
    assert_eq!(KMDItemTypes::Path.into_ref(), "kMDItemPath");
    assert_eq!(<KMDItemTypes as KMDItem>::into_ref(&KMDItemTypes::UserTags), "kMDItemUserTags");
    assert_eq!(<KMDItemTypes as KMDItem>::into_ref(&KMDItemTypes::Path), "kMDItemPath");
}
