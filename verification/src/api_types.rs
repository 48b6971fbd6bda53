//! The data carried across the library's boundary: per-key usage
//! records and the envelopes of the JSON API.

use vstd::prelude::*;

verus! {

/// One key's usage record in the ledger.
pub struct ApiKeyData {
    pub key: String,
    pub total_bytes_processed: u64,
    pub total_original_bytes: u64,
    pub total_processed_bytes: u64,
    pub compression_count: u64,
    pub created_at: String,
    pub last_used: Option<String>,
}

impl Clone for ApiKeyData {
    fn clone(&self) -> (r: Self)
        ensures
            r == *self,
    {
        ApiKeyData {
            key: self.key.clone(),
            total_bytes_processed: self.total_bytes_processed,
            total_original_bytes: self.total_original_bytes,
            total_processed_bytes: self.total_processed_bytes,
            compression_count: self.compression_count,
            created_at: self.created_at.clone(),
            last_used: match &self.last_used {
                Some(s) => Some(s.clone()),
                None => None,
            },
        }
    }
}

/// The envelope of a processed-page response.
pub struct ApiResponse {
    pub success: bool,
    pub data: Option<String>,
    pub error: Option<String>,
    pub original_url: Option<String>,
    pub processed_at: String,
    pub original_size_bytes: Option<u64>,
    pub processed_size_bytes: Option<u64>,
}

/// A processing request: the target URL and the wanted format.
pub struct ApiRequest {
    pub url: String,
    pub format: Option<String>,
}

/// A key-creation request.
pub struct CreateKeyRequest {
    pub admin_key: String,
    pub key: String,
}

/// The envelope of a usage or key-listing response.
pub struct UsageResponse {
    pub success: bool,
    pub key: Option<String>,
    pub total_bytes_processed: Option<u64>,
    pub keys: Option<Vec<ApiKeyData>>,
    pub error: Option<String>,
}

} // verus!
