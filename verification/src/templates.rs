//! The fixed text of the emitted module, piece by piece.

use vstd::prelude::*;

verus! {

/// The warning that opens every emitted module, and the imports that every
/// protocol needs.
pub const MODULE_HEADER: &'static str = "
        // =================================================================
        //
        //                           * WARNING *
        //
        //                    This file is generated!
        //
        //  Changes made to this file will be overwritten. If changes are
        //  required to the generated code, the service_crategen project
        //  must be updated to generate the changes.
        //
        // =================================================================

        #[allow(warnings)]
        use hyper::Client;
        use hyper::status::StatusCode;
        use rusoto_core::request::DispatchSignedRequest;
        use rusoto_core::region;

        use std::fmt;
        use std::error::Error;
        use std::io;
        use std::io::Read;
        use rusoto_core::request::HttpDispatchError;
        use rusoto_core::credential::{CredentialsError, ProvideAwsCredentials};
    ";

/// Opens the documentation of the capability interface, before the service
/// name.
pub const INTERFACE_DOC_OPEN: &'static str = "/// Trait representing the capabilities of the ";

/// Stands between the two mentions of the service name in that documentation.
pub const INTERFACE_DOC_MIDDLE: &'static str = " API. ";

/// Closes that documentation and opens the interface, before its name.
pub const INTERFACE_DOC_CLOSE: &'static str = " clients implement this trait.
        pub trait ";

/// Opens the body of the interface, before the method signatures.
pub const INTERFACE_OPEN: &'static str = " {
        ";

/// Closes the interface and the implementation.
pub const BLOCK_CLOSE: &'static str = "}";

/// Opens the documentation of the client type, before the service name.
pub const CLIENT_DOC_OPEN: &'static str = "/// A client for the ";

/// Closes that documentation and opens the client type, before its name.
pub const CLIENT_STRUCT_OPEN: &'static str = " API.
        pub struct ";

/// The bounds and the fields of the client type: a credentials provider, a
/// region and a request dispatcher. Then opens the inherent implementation,
/// before the client name.
pub const CLIENT_STRUCT_BODY: &'static str = "<P, D> where P: ProvideAwsCredentials, D: DispatchSignedRequest {
            credentials_provider: P,
            region: region::Region,
            dispatcher: D,
        }

        impl<P, D> ";

/// The constructor, which takes the dispatcher, the credentials provider and
/// the region, up to the client name in its body.
pub const CLIENT_CONSTRUCTOR_OPEN: &'static str = "<P, D> where P: ProvideAwsCredentials, D: DispatchSignedRequest {
            pub fn new(request_dispatcher: D, credentials_provider: P, region: region::Region) -> Self {
                  ";

/// The body of the constructor. Then opens the implementation of the
/// capability interface, before the interface name.
pub const CLIENT_CONSTRUCTOR_BODY: &'static str = " {
                    credentials_provider: credentials_provider,
                    region: region,
                    dispatcher: request_dispatcher
                }
            }
        }

        impl<P, D> ";

/// Stands between the interface name and the client name.
pub const CLIENT_IMPL_FOR: &'static str = " for ";

/// The bounds of that implementation, and the opening of its body, before the
/// methods.
pub const CLIENT_IMPL_OPEN: &'static str = "<P, D> where P: ProvideAwsCredentials, D: DispatchSignedRequest {
        ";

/// Opens a streaming wrapper, before its name. The wrapper owns a boxed
/// reader and prints as a placeholder, never as its content.
pub const STREAM_STRUCT_OPEN: &'static str = "pub struct ";

/// The one field of the wrapper, a boxed reader. Then opens the
/// implementation of `Debug`, before the wrapper name.
pub const STREAM_STRUCT_BODY: &'static str = "(Box<Read>);

                     impl fmt::Debug for ";

/// Opens the placeholder that the wrapper prints as, before the type name.
pub const STREAM_DEBUG_OPEN: &'static str = " {
                         fn fmt(&self, f: &mut fmt::Formatter) -> fmt::Result {
                             write!(f, \"<";

/// Closes the placeholder. Then opens the implementation of `Deref`, before
/// the wrapper name.
pub const STREAM_DEBUG_CLOSE: &'static str = ": streaming content>\")
                         }
                     }

                     impl ::std::ops::Deref for ";

/// Access to the reader. Then opens the implementation of `DerefMut`, before
/// the wrapper name.
pub const STREAM_DEREF_BODY: &'static str = " {
                         type Target = Box<Read>;

                         fn deref(&self) -> &Box<Read> {
                             &self.0
                         }
                     }

                     impl ::std::ops::DerefMut for ";

/// Mutable access to the reader. Then opens the implementation of `Read`,
/// before the wrapper name.
pub const STREAM_DEREF_MUT_BODY: &'static str = " {
                         fn deref_mut(&mut self) -> &mut Box<Read> {
                             &mut self.0
                         }
                     }

                     impl ::std::io::Read for ";

/// Reading through the wrapper reads from the reader.
pub const STREAM_READ_BODY: &'static str = " {
                         fn read(&mut self, buf: &mut [u8]) -> ::std::io::Result<usize> {
                             self.0.read(buf)
                         }
                     }";

/// Stands between the attributes of a struct and its name.
pub const STRUCT_OPEN: &'static str = "
            pub struct ";

/// Closes a struct without fields.
pub const UNIT_STRUCT_CLOSE: &'static str = ";
            ";

/// Opens the fields of a struct, after its name and its lifetime.
pub const STRUCT_FIELDS_OPEN: &'static str = " {
                ";

/// Closes the fields of a struct.
pub const STRUCT_FIELDS_CLOSE: &'static str = "
            }
            ";

/// Opens a line of documentation.
pub const DOC_OPEN: &'static str = "/// ";

/// Opens the attribute that keeps the schema name of a field on the wire,
/// before that name.
pub const SERDE_RENAME_OPEN: &'static str = "#[serde(rename=\"";

/// Closes that attribute.
pub const SERDE_RENAME_CLOSE: &'static str = "\")]";

/// The attribute that routes a blob through its own codec.
pub const SERDE_BLOB: &'static str = "#[serde(
                            deserialize_with=\"::rusoto_core::serialization::SerdeBlob::deserialize_blob\",
                            serialize_with=\"::rusoto_core::serialization::SerdeBlob::serialize_blob\",
                            default,
                        )]";

/// The attribute that leaves an absent optional field off the wire.
pub const SERDE_SKIP_NONE: &'static str = "#[serde(skip_serializing_if=\"Option::is_none\")]";

/// The attribute that lets a string field borrow from the payload.
pub const SERDE_BORROW: &'static str = "#[serde(borrow)]";

} // verus!
