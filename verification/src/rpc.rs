//! Routing of the local RPC facade's method names. The HTTP plumbing around
//! it is the binary's; which handler a method name reaches is decided here.

use vstd::prelude::*;
use vstd::string::*;

use crate::textdec::str_eq;

verus! {

/// One RPC request's method name.
pub struct RpcMethod {
    pub method: String,
}

/// The handler a method name routes to.
#[derive(Clone, Copy, PartialEq, Eq, Structural, Debug)]
pub enum RpcCall {
    GetChecksumOfFiles,
    Extract7z,
    CopyFilesToGtaSa,
    Unknown,
}

impl RpcMethod {
    /// The handler this method name routes to; an unknown name routes to
    /// none.
    pub open spec fn spec_call(&self) -> RpcCall {
        if self.method@ == "get_checksum_of_files"@ {
            RpcCall::GetChecksumOfFiles
        } else if self.method@ == "extract_7z"@ {
            RpcCall::Extract7z
        } else if self.method@ == "copy_files_to_gtasa"@ {
            RpcCall::CopyFilesToGtaSa
        } else {
            RpcCall::Unknown
        }
    }

    /// Routes this method name to its handler.
    pub fn classify(&self) -> (r: RpcCall)
        ensures
            r == self.spec_call(),
    {
        if str_eq(self.method.as_str(), "get_checksum_of_files") {
            RpcCall::GetChecksumOfFiles
        } else if str_eq(self.method.as_str(), "extract_7z") {
            RpcCall::Extract7z
        } else if str_eq(self.method.as_str(), "copy_files_to_gtasa") {
            RpcCall::CopyFilesToGtaSa
        } else {
            RpcCall::Unknown
        }
    }

    /// The storage operation a method name routes to; an unknown name routes
    /// to none.
    pub open spec fn spec_storage_call(&self) -> StorageCall {
        if self.method@ == "storage_get_item"@ {
            StorageCall::GetItem
        } else if self.method@ == "storage_set_item"@ {
            StorageCall::SetItem
        } else if self.method@ == "storage_remove_item"@ {
            StorageCall::RemoveItem
        } else if self.method@ == "storage_get_all_items"@ {
            StorageCall::GetAllItems
        } else if self.method@ == "storage_clear"@ {
            StorageCall::Clear
        } else {
            StorageCall::Unknown
        }
    }

    /// Routes this method name to its storage operation.
    pub fn classify_storage(&self) -> (r: StorageCall)
        ensures
            r == self.spec_storage_call(),
    {
        if str_eq(self.method.as_str(), "storage_get_item") {
            StorageCall::GetItem
        } else if str_eq(self.method.as_str(), "storage_set_item") {
            StorageCall::SetItem
        } else if str_eq(self.method.as_str(), "storage_remove_item") {
            StorageCall::RemoveItem
        } else if str_eq(self.method.as_str(), "storage_get_all_items") {
            StorageCall::GetAllItems
        } else if str_eq(self.method.as_str(), "storage_clear") {
            StorageCall::Clear
        } else {
            StorageCall::Unknown
        }
    }
}

/// The operation a storage method name routes to.
#[derive(Clone, Copy, PartialEq, Eq, Structural, Debug)]
pub enum StorageCall {
    GetItem,
    SetItem,
    RemoveItem,
    GetAllItems,
    Clear,
    Unknown,
}

} // verus!
