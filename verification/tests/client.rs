use service_crategen::client::{client_definition, generate_client, interface_definition};
use service_crategen::{GenerateProtocol, Service};

struct Backend;

impl GenerateProtocol for Backend {
    fn generate_prelude(&self, _service: &Service) -> String {
        String::new()
    }

    fn generate_method_signatures(&self, service: &Service) -> String {
        format!("fn list(&self); // {}\n", service.name())
    }

    fn generate_method_impls(&self, service: &Service) -> String {
        format!("fn list(&self) {{}} // {}\n", service.name())
    }

    fn generate_struct_attributes(&self, _serialized: bool, _deserialized: bool) -> String {
        String::new()
    }

    fn timestamp_type(&self) -> &'static str {
        "f64"
    }
}

fn service() -> Service {
    Service {
        name: "Key Vault".to_string(),
        protocol: "json".to_string(),
        shapes: vec![],
        operations: vec![],
    }
}

const INTERFACE: &str = "/// Trait representing the capabilities of the Key Vault API. Key Vault clients implement this trait.
        pub trait KeyVault {
        
[signatures]}
";

const CLIENT: &str = "/// A client for the Key Vault API.
        pub struct KeyVaultClient<P, D> where P: ProvideAwsCredentials, D: DispatchSignedRequest {
            credentials_provider: P,
            region: region::Region,
            dispatcher: D,
        }

        impl<P, D> KeyVaultClient<P, D> where P: ProvideAwsCredentials, D: DispatchSignedRequest {
            pub fn new(request_dispatcher: D, credentials_provider: P, region: region::Region) -> Self {
                  KeyVaultClient {
                    credentials_provider: credentials_provider,
                    region: region,
                    dispatcher: request_dispatcher
                }
            }
        }

        impl<P, D> KeyVault for KeyVaultClient<P, D> where P: ProvideAwsCredentials, D: DispatchSignedRequest {
        
[methods]}
";

#[test]
fn the_interface_frames_the_method_signatures() {
    assert_eq!(interface_definition(&service(), "[signatures]"), INTERFACE);
}

#[test]
fn the_client_holds_provider_region_and_dispatcher() {
    assert_eq!(client_definition(&service(), "[methods]"), CLIENT);
}

#[test]
fn the_client_follows_the_interface() {
    let text = generate_client(&service(), &Backend);
    let expected = format!(
        "{}{}",
        INTERFACE.replace("[signatures]", "fn list(&self); // Key Vault\n"),
        CLIENT.replace("[methods]", "fn list(&self) {} // Key Vault\n")
    );
    assert_eq!(text, expected);
}
