use stabilitypool::api::{ApiEndpoint, ApiError, CallAction, CallEvent, CallState, DbScope};
use stabilitypool::client::{
    Action, ActionProposed, PoolClientGen, PoolClientModule, PoolRequest, UnstagedAction,
};
use stabilitypool::config::PoolClientConfig;
use stabilitypool::db::{DbKeyPrefix, NonceKey};
use stabilitypool::encoding::{Decodable, DecodeError, Encodable, SerdeModuleEncoding};
use stabilitypool::keys::KeyPair;
use stabilitypool::module::{ApiVersion, DecodableType, ModuleCommon, PeerHandle};
use stabilitypool::oracle::OracleConfig;
use stabilitypool::proposal::ConsensusProposal;
use stabilitypool::server::PoolModuleTypes;

fn step(
    instance: Option<u16>,
    state: CallState<u32>,
    event: CallEvent<u8, u32>,
) -> (CallState<u32>, CallAction<u8, u32>) {
    ApiEndpoint::from_typed("/balance").next(instance, state, event)
}

#[test]
fn call_that_succeeds() {
    assert_eq!(ApiEndpoint::from_typed("/balance").path, "/balance");
    let (state, action) = step(Some(3), CallState::Parsing, CallEvent::Parsed(Ok(8)));
    assert!(matches!(action, CallAction::Handle { scope: DbScope::Module(3), params: 8 }));
    let (state, action) = step(Some(3), state, CallEvent::Handled(Ok(64)));
    assert!(matches!(action, CallAction::Commit));
    let (state, action) = step(Some(3), state, CallEvent::Committed(true));
    assert!(matches!(action, CallAction::Answer(Ok(64))));
    assert!(matches!(state, CallState::Answered));
}

#[test]
fn call_to_no_module() {
    let (_, action) = step(None, CallState::Parsing, CallEvent::Parsed(Ok(8)));
    assert!(matches!(action, CallAction::Handle { scope: DbScope::Isolated, params: 8 }));
}

#[test]
fn call_with_bad_parameters() {
    let (state, action) = step(None, CallState::Parsing, CallEvent::Parsed(Err("not a number".to_string())));
    assert!(matches!(state, CallState::Answered));
    match action {
        CallAction::Answer(Err(error)) => assert_eq!((error.code, error.message.as_str()), (400, "not a number")),
        _ => panic!("no error"),
    }
}

#[test]
fn call_that_the_handler_refuses() {
    let error = ApiError::not_found("no such account".to_string());
    let (state, action) = step(Some(3), CallState::Handling, CallEvent::Handled(Err(error)));
    assert!(matches!(state, CallState::Answered));
    match action {
        CallAction::Answer(Err(error)) => assert_eq!((error.code, error.message.as_str()), (404, "no such account")),
        _ => panic!("no error"),
    }
}

#[test]
fn call_that_cannot_be_committed() {
    let (state, action) = step(Some(3), CallState::Committing(64), CallEvent::Committed(false));
    assert!(matches!(state, CallState::Answered));
    match action {
        CallAction::Answer(Err(error)) => {
            assert_eq!((error.code, error.message.as_str()), (500, "Internal Server Error"));
        }
        _ => panic!("no error"),
    }
}

#[test]
fn api_errors() {
    let error = ApiError::new(418, "teapot".to_string());
    assert_eq!((error.code, error.message.as_str()), (418, "teapot"));
    let error = ApiError::not_found("a".to_string());
    assert_eq!((error.code, error.message.as_str()), (404, "a"));
    let error = ApiError::bad_request("b".to_string());
    assert_eq!((error.code, error.message.as_str()), (400, "b"));
}

#[test]
fn proposals() {
    let empty: ConsensusProposal<u8> = ConsensusProposal::empty();
    assert!(!empty.forces_new_epoch() && empty.items().is_empty());
    let nothing: ConsensusProposal<u8> = ConsensusProposal::new_auto_trigger(vec![]);
    assert!(!nothing.forces_new_epoch() && nothing.into_items().is_empty());
    let something = ConsensusProposal::new_auto_trigger(vec![1u8, 2]);
    assert!(something.forces_new_epoch());
    let mut seen = 0;
    let mapped = something.map(|x: u8| {
        seen += 1;
        u32::from(x) * 10
    });
    assert_eq!(seen, 2);
    assert!(mapped.forces_new_epoch());
    assert_eq!(mapped.items(), &[10u32, 20]);
    assert_eq!(mapped.into_items(), vec![10u32, 20]);
    let contributed = ConsensusProposal::Contribute(vec![5u8]).map(|x: u8| x + 1);
    assert!(!contributed.forces_new_epoch());
    assert_eq!(contributed.into_items(), vec![6u8]);
}

#[test]
fn peer_handle() {
    let connections = "connections";
    let handle = PeerHandle::new(&connections, 3, 1, vec![0, 1, 2]);
    assert_eq!(handle.peer_ids(), &[0, 1, 2]);
    assert_eq!((handle.module_instance_id, handle.our_id, *handle.connections), (3, 1, "connections"));
}

#[test]
fn decoder_of_the_pool() {
    let decoder = PoolModuleTypes::<u8, u8>::decoder();
    assert_eq!(
        decoder.types,
        vec![DecodableType::Input, DecodableType::Output, DecodableType::OutputOutcome, DecodableType::ConsensusItem]
    );
}

#[derive(Debug, PartialEq)]
struct Word(u16);

impl Encodable for Word {
    fn consensus_encode_to_vec(&self) -> Vec<u8> {
        self.0.to_be_bytes().to_vec()
    }
}

impl Decodable<()> for Word {
    fn consensus_decode(bytes: &[u8], _modules: &()) -> Result<Self, DecodeError> {
        match bytes {
            [high, low, ..] => Ok(Word(u16::from_be_bytes([*high, *low]))),
            _ => Err(DecodeError { message: "too short".to_string() }),
        }
    }
}

#[test]
fn wrapped_values_come_back() {
    let wrapped = SerdeModuleEncoding::from(&Word(0x1234));
    assert_eq!(wrapped.as_bytes(), &[0x12, 0x34]);
    assert_eq!(wrapped.try_into_inner(&()), Ok(Word(0x1234)));
    assert_eq!(wrapped.clone(), wrapped);
    assert_ne!(SerdeModuleEncoding::from(&Word(0x1235)), wrapped);
    let short: SerdeModuleEncoding<Word> = SerdeModuleEncoding::from_bytes(vec![1]);
    assert_eq!(short.try_into_inner(&()), Err(DecodeError { message: "too short".to_string() }));
}

#[derive(Debug)]
struct Bid(u8);

fn encode(action: &Action<Bid>) -> Vec<u8> {
    let mut bytes = action.epoch_id.to_be_bytes().to_vec();
    bytes.extend_from_slice(&action.sequence.to_be_bytes());
    bytes.extend_from_slice(&action.account_id.bytes);
    bytes.push(action.body.0);
    bytes
}

fn secret(last: u8) -> [u8; 32] {
    let mut secret = [0; 32];
    secret[31] = last;
    secret
}

fn client() -> PoolClientModule<u8> {
    let config = PoolClientConfig { oracle: OracleConfig::BitMex, collateral_ratio: 1 };
    PoolClientGen.init(config, KeyPair::from_secret(secret(3)).unwrap())
}

/// The x-coordinate of three times the generator.
const ACCOUNT_OF_THREE: &str = "f9308a019258c31049344f85f89d5229b531c845836f99b08601f113bce036f9";

fn hex(bytes: &[u8]) -> String {
    bytes.iter().map(|byte| format!("{:02x}", byte)).collect()
}

#[test]
fn account_of_a_key() {
    assert_eq!(hex(&client().account_id().bytes), ACCOUNT_OF_THREE);
    assert_eq!(hex(&client().account_key().x_only_public_key().bytes), ACCOUNT_OF_THREE);
    assert!(KeyPair::from_secret([0; 32]).is_none());
    assert!(KeyPair::from_secret([0xff; 32]).is_none());
}

#[test]
fn requests_and_their_endpoints() {
    let client = client();
    let request: PoolRequest<Bid, Bid> = client.balance();
    assert_eq!(request.method(), "account");
    assert!(matches!(request, PoolRequest::Account(account) if hex(&account.bytes) == ACCOUNT_OF_THREE));
    let request: PoolRequest<Bid, Bid> = client.epoch_outcome(12);
    assert_eq!(request.method(), "epoch");
    assert!(matches!(request, PoolRequest::Epoch(12)));
    let request: PoolRequest<Bid, Bid> = client.staging_epoch();
    assert_eq!(request.method(), "epoch_next");
    let request: PoolRequest<Bid, Bid> = client.staged_action();
    assert_eq!(request.method(), "action");
    assert!(matches!(request, PoolRequest::Action(account) if hex(&account.bytes) == ACCOUNT_OF_THREE));
    let request: PoolRequest<Bid, Bid> = client.state();
    assert_eq!(request.method(), "state");
}

#[test]
fn proposed_actions_are_signed() {
    let client = client();
    let before = std::time::UNIX_EPOCH.elapsed().unwrap().as_secs();
    let unstaged = client.start_action(Bid(9)).unwrap_or_else(|_| panic!("clock before 1970"));
    let after = std::time::UNIX_EPOCH.elapsed().unwrap().as_secs();
    assert!(before <= unstaged.sequence && unstaged.sequence <= after);
    let request: PoolRequest<Bid, Bid> = client.propose_provider_action(unstaged, 77, encode);
    assert_eq!(request.method(), "action_propose");
    let signed = match request {
        PoolRequest::ActionPropose(ActionProposed::Provider(signed)) => signed,
        _ => panic!("no provider action"),
    };
    assert_eq!((signed.action.epoch_id, signed.action.body.0), (77, 9));
    assert_eq!(hex(&signed.action.account_id.bytes), ACCOUNT_OF_THREE);

    let secp = secp256k1_zkp::Secp256k1::verification_only();
    let message = secp256k1_zkp::Message::from_hashed_data::<bitcoin::hashes::sha256::Hash>(
        &encode(&signed.action),
    );
    let signature = secp256k1_zkp::schnorr::Signature::from_slice(&signed.signature).unwrap();
    let account = secp256k1_zkp::XOnlyPublicKey::from_slice(&signed.action.account_id.bytes).unwrap();
    assert!(secp.verify_schnorr(&signature, &message, &account).is_ok());
    let other = secp256k1_zkp::Message::from_hashed_data::<bitcoin::hashes::sha256::Hash>(b"other");
    assert!(secp.verify_schnorr(&signature, &other, &account).is_err());
}

#[test]
fn seeker_actions_go_out_as_such() {
    let client = client();
    let unstaged = client.start_action(Bid(1)).unwrap_or_else(|_| panic!("clock before 1970"));
    let request: PoolRequest<Bid, Bid> = client.propose_seeker_action(unstaged, 5, encode);
    assert!(matches!(request, PoolRequest::ActionPropose(ActionProposed::Seeker(_))));
}

#[test]
fn sequence_of_an_action_is_the_time() {
    let started = client().start_action_at(Some(1_600_000_000), Bid(2)).unwrap();
    assert_eq!((started.sequence, started.body.0), (1_600_000_000, 2));
    assert_eq!(client().start_action_at(None, Bid(3)).unwrap_err().0, 3);
}

#[test]
fn signing_takes_the_staging_epoch() {
    let client = client();
    let unstaged = UnstagedAction { sequence: 1_600_000_000, body: Bid(4) };
    let signed = client.create_signed_acton(unstaged, Ok::<u64, &str>(6), encode).unwrap();
    assert_eq!((signed.action.epoch_id, signed.action.sequence), (6, 1_600_000_000));
    assert_eq!(signed.action.body.0, 4);
    assert_eq!(hex(&signed.action.account_id.bytes), ACCOUNT_OF_THREE);

    let unstaged = UnstagedAction { sequence: 1_600_000_000, body: Bid(4) };
    let refused = client.create_signed_acton(unstaged, Err::<u64, &str>("no answer"), encode);
    assert_eq!(refused.unwrap_err(), "no answer");
}

#[test]
fn api_version_of_the_client() {
    assert_eq!(PoolClientGen.supported_api_versions(), vec![ApiVersion { major: 0, minor: 0 }]);
}

#[test]
fn keys_in_the_client_database() {
    assert_eq!(NonceKey.db_prefix(), DbKeyPrefix::Nonce);
    assert_eq!(NonceKey.db_prefix().as_byte(), 1);
}
