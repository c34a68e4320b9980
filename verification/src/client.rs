//! The pool as a client sees it: its account, the requests that it sends to the
//! guardians, and the actions that it signs.

use crate::config::PoolClientConfig;
use crate::keys::{
    is_schnorr_signature, schnorr_signature, sha256, sha256_digest, x_only_public_key, KeyPair,
    XOnlyPublicKey,
};
use crate::generator::server_api_versions;
use crate::module::ApiVersion;
use vstd::prelude::*;

verus! {

/// Makes the client of a pool.
#[derive(Debug, Clone, Copy, PartialEq, Eq, Structural, Hash)]
pub struct PoolClientGen;

/// The API versions that the client of a pool can talk to.
pub open spec fn client_api_versions() -> Seq<ApiVersion> {
    seq![ApiVersion { major: 0, minor: 0 }]
}

impl PoolClientGen {
    /// The client of a pool that is configured by `cfg`, with the account that `key` owns.
    pub fn init<Ratio>(&self, cfg: PoolClientConfig<Ratio>, key: KeyPair) -> (module:
        PoolClientModule<Ratio>)
        ensures
            module.cfg == cfg,
            module.key == key,
    {
        PoolClientModule { cfg, key }
    }

    /// The API versions that the client can talk to.
    pub fn supported_api_versions(&self) -> (versions: Vec<ApiVersion>)
        ensures
            versions@ == client_api_versions(),
            versions@.len() == 1 && versions@[0].major == 0 && versions@[0].minor == 0,
    {
        vec![ApiVersion { major: 0, minor: 0 }]
    }
}

/// Something that the owner of an account asks for. It takes effect in the epoch that is
/// being prepared.
#[derive(Debug)]
pub struct Action<T> {
    pub epoch_id: u64,
    /// Seconds since 1970, when the action was started.
    pub sequence: u64,
    pub account_id: XOnlyPublicKey,
    pub body: T,
}

/// An action with the signature of the key that owns its account.
#[derive(Debug)]
pub struct SignedAction<T> {
    pub signature: [u8; 64],
    pub action: Action<T>,
}

impl<T> SignedAction<T> {
    /// The signature is one that `secret` gives for the action as `encode` puts it.
    pub open spec fn is_signed_with<F: Fn(&Action<T>) -> Vec<u8>>(
        self,
        encode: F,
        secret: Seq<u8>,
    ) -> bool {
        exists|encoded: Vec<u8>| #[trigger]
            call_ensures(encode, (&self.action,), encoded) && is_schnorr_signature(
                self.signature@,
                sha256(encoded@),
                secret,
            )
    }
}

/// An action that lacks the epoch and the signature.
#[derive(Debug)]
pub struct UnstagedAction<T> {
    pub sequence: u64,
    pub body: T,
}

/// An action on its way to the guardians: one of a seeker, or the bid of a provider.
#[derive(Debug)]
pub enum ActionProposed<Seeker, Provider> {
    Seeker(SignedAction<Seeker>),
    Provider(SignedAction<Provider>),
}

/// What a client asks the guardians.
#[derive(Debug)]
pub enum PoolRequest<Seeker, Provider> {
    /// The balance of an account.
    Account(XOnlyPublicKey),
    /// What became of an epoch.
    Epoch(u64),
    /// The epoch that is being prepared.
    EpochNext,
    /// To take an action into account.
    ActionPropose(ActionProposed<Seeker, Provider>),
    /// The action that is staged for an account.
    Action(XOnlyPublicKey),
    /// How the pool stands.
    State,
}

impl<Seeker, Provider> PoolRequest<Seeker, Provider> {
    /// The endpoint that a request goes to.
    pub open spec fn endpoint(self) -> Seq<char> {
        match self {
            PoolRequest::Account(_) => "account"@,
            PoolRequest::Epoch(_) => "epoch"@,
            PoolRequest::EpochNext => "epoch_next"@,
            PoolRequest::ActionPropose(_) => "action_propose"@,
            PoolRequest::Action(_) => "action"@,
            PoolRequest::State => "state"@,
        }
    }

    /// The name of the endpoint that the request goes to.
    pub fn method(&self) -> (method: &'static str)
        ensures
            method@ == self.endpoint(),
            self is Account ==> method@ == "account"@,
            self is Epoch ==> method@ == "epoch"@,
            self is EpochNext ==> method@ == "epoch_next"@,
            self is ActionPropose ==> method@ == "action_propose"@,
            self is Action ==> method@ == "action"@,
            self is State ==> method@ == "state"@,
    {
        match self {
            PoolRequest::Account(_) => "account",
            PoolRequest::Epoch(_) => "epoch",
            PoolRequest::EpochNext => "epoch_next",
            PoolRequest::ActionPropose(_) => "action_propose",
            PoolRequest::Action(_) => "action",
            PoolRequest::State => "state",
        }
    }
}

/// Trusted: `std::time::SystemTime::elapsed` of `std::time::UNIX_EPOCH`, in whole seconds.
/// The result is whatever the machine's clock says, or `None` if it is set to a time before
/// 1970; nothing is claimed of it.
#[verifier::external_body]
fn seconds_since_epoch() -> (seconds: Option<u64>) {
    let elapsed = std::time::UNIX_EPOCH.elapsed().ok()?;
    Some(elapsed.as_secs())
}

/// The client of a pool.
pub struct PoolClientModule<Ratio> {
    pub cfg: PoolClientConfig<Ratio>,
    pub key: KeyPair,
}

impl<Ratio> PoolClientModule<Ratio> {
    /// The key that owns the client's account.
    pub fn account_key(&self) -> (key: &KeyPair)
        ensures
            *key == self.key,
    {
        &self.key
    }

    /// The client's account.
    pub fn account_id(&self) -> (account: XOnlyPublicKey)
        ensures
            x_only_public_key(self.key.secret()) == Some(account.bytes@),
    {
        self.account_key().x_only_public_key()
    }

    /// Asks for the balance of the client's account.
    pub fn balance<S, P>(&self) -> (request: PoolRequest<S, P>)
        ensures
            request matches PoolRequest::Account(account) && x_only_public_key(self.key.secret())
                == Some(account.bytes@),
    {
        PoolRequest::Account(self.account_id())
    }

    /// Asks what became of an epoch.
    pub fn epoch_outcome<S, P>(&self, epoch_id: u64) -> (request: PoolRequest<S, P>)
        ensures
            request == PoolRequest::<S, P>::Epoch(epoch_id),
    {
        PoolRequest::Epoch(epoch_id)
    }

    /// Asks for the epoch that is being prepared.
    pub fn staging_epoch<S, P>(&self) -> (request: PoolRequest<S, P>)
        ensures
            request == PoolRequest::<S, P>::EpochNext,
    {
        PoolRequest::EpochNext
    }

    /// Asks for the action that is staged for the client's account.
    pub fn staged_action<S, P>(&self) -> (request: PoolRequest<S, P>)
        ensures
            request matches PoolRequest::Action(account) && x_only_public_key(self.key.secret())
                == Some(account.bytes@),
    {
        PoolRequest::Action(self.account_id())
    }

    /// Asks how the pool stands.
    pub fn state<S, P>(&self) -> (request: PoolRequest<S, P>)
        ensures
            request == PoolRequest::<S, P>::State,
    {
        PoolRequest::State
    }

    /// Starts an action when the clock says `clock`, in seconds since 1970: they become the
    /// sequence number. A clock that is set to a time before 1970 says nothing, and the body
    /// comes back.
    pub fn start_action_at<T>(&self, clock: Option<u64>, body: T) -> (unstaged: Result<
        UnstagedAction<T>,
        T,
    >)
        ensures
            match clock {
                Some(sequence) => unstaged == Ok::<UnstagedAction<T>, T>(
                    (UnstagedAction { sequence, body }),
                ),
                None => unstaged == Err::<UnstagedAction<T>, T>(body),
            },
    {
        match clock {
            Some(sequence) => Ok(UnstagedAction { sequence, body }),
            None => Err(body),
        }
    }

    /// Starts an action now, as `start_action_at` does with what the machine's clock says.
    /// Which time that is, and whether it is one before 1970, is up to the machine. To sign
    /// the action takes the epoch that `staging_epoch` asks for.
    pub fn start_action<T>(&self, body: T) -> (unstaged: Result<UnstagedAction<T>, T>)
        ensures
            match unstaged {
                Ok(unstaged) => unstaged.body == body,
                Err(refused) => refused == body,
            },
    {
        self.start_action_at(seconds_since_epoch(), body)
    }

    /// `signed` is the action that was started as `unstaged`, in the epoch `epoch_id`, for
    /// the client's account and signed by its key.
    pub open spec fn signs<T, F: Fn(&Action<T>) -> Vec<u8>>(
        self,
        unstaged: UnstagedAction<T>,
        epoch_id: u64,
        encode: F,
        signed: SignedAction<T>,
    ) -> bool {
        &&& signed.action.epoch_id == epoch_id
        &&& signed.action.sequence == unstaged.sequence
        &&& x_only_public_key(self.key.secret()) == Some(signed.action.account_id.bytes@)
        &&& signed.action.body == unstaged.body
        &&& signed.is_signed_with(encode, self.key.secret())
    }

    /// Puts an action of the client's account into the epoch `epoch_id` and signs it.
    fn sign_action<T, F: Fn(&Action<T>) -> Vec<u8>>(
        &self,
        unstaged: UnstagedAction<T>,
        epoch_id: u64,
        encode: F,
    ) -> (signed: SignedAction<T>)
        requires
            forall|action: &Action<T>| call_requires(encode, (action,)),
        ensures
            self.signs(unstaged, epoch_id, encode, signed),
    {
        let action = Action {
            epoch_id,
            sequence: unstaged.sequence,
            account_id: self.account_id(),
            body: unstaged.body,
        };
        let encoded = encode(&action);
        let digest = sha256_digest(encoded.as_slice());
        let signature = self.account_key().sign_schnorr(&digest);
        SignedAction { signature, action }
    }

    /// Puts an action of the client's account into the epoch that is being prepared and
    /// signs it. `staging_epoch` is what the guardians said of that epoch, or why they could
    /// not be asked; `encode` gives the consensus encoding of an action.
    pub fn create_signed_acton<T, E, F: Fn(&Action<T>) -> Vec<u8>>(
        &self,
        unstaged: UnstagedAction<T>,
        staging_epoch: Result<u64, E>,
        encode: F,
    ) -> (signed: Result<SignedAction<T>, E>)
        requires
            forall|action: &Action<T>| call_requires(encode, (action,)),
        ensures
            match staging_epoch {
                Ok(epoch_id) => {
                    &&& signed matches Ok(signed)
                    &&& self.signs(unstaged, epoch_id, encode, signed)
                    &&& signed.action.epoch_id == epoch_id
                    &&& signed.action.sequence == unstaged.sequence
                    &&& signed.action.body == unstaged.body
                },
                Err(error) => signed == Err::<SignedAction<T>, E>(error),
            },
    {
        match staging_epoch {
            Ok(epoch_id) => Ok(self.sign_action(unstaged, epoch_id, encode)),
            Err(error) => Err(error),
        }
    }

    /// Proposes an action of a seeker for the epoch `epoch_id`, which is the one that is
    /// being prepared. `encode` gives the consensus encoding of an action.
    pub fn propose_seeker_action<S, P, F: Fn(&Action<S>) -> Vec<u8>>(
        &self,
        unstaged: UnstagedAction<S>,
        epoch_id: u64,
        encode: F,
    ) -> (request: PoolRequest<S, P>)
        requires
            forall|action: &Action<S>| call_requires(encode, (action,)),
        ensures
            request matches PoolRequest::ActionPropose(ActionProposed::Seeker(signed))
                && self.signs(unstaged, epoch_id, encode, signed) && signed.action.epoch_id
                == epoch_id && signed.action.sequence == unstaged.sequence && signed.action.body
                == unstaged.body,
    {
        let signed_action = self.sign_action(unstaged, epoch_id, encode);
        PoolRequest::ActionPropose(ActionProposed::Seeker(signed_action))
    }

    /// Proposes the bid of a provider for the epoch `epoch_id`, which is the one that is
    /// being prepared. `encode` gives the consensus encoding of an action.
    pub fn propose_provider_action<S, P, F: Fn(&Action<P>) -> Vec<u8>>(
        &self,
        unstaged: UnstagedAction<P>,
        epoch_id: u64,
        encode: F,
    ) -> (request: PoolRequest<S, P>)
        requires
            forall|action: &Action<P>| call_requires(encode, (action,)),
        ensures
            request matches PoolRequest::ActionPropose(ActionProposed::Provider(signed))
                && self.signs(unstaged, epoch_id, encode, signed) && signed.action.epoch_id
                == epoch_id && signed.action.sequence == unstaged.sequence && signed.action.body
                == unstaged.body,
    {
        let signed_action = self.sign_action(unstaged, epoch_id, encode);
        PoolRequest::ActionPropose(ActionProposed::Provider(signed_action))
    }
}

/// The endpoints of different kinds of requests differ, so that the guardians can tell the
/// kinds apart.
pub proof fn law_endpoints_tell_requests_apart<S, P>(
    one: PoolRequest<S, P>,
    other: PoolRequest<S, P>,
)
    requires
        one.endpoint() == other.endpoint(),
    ensures
        one is Account <==> other is Account,
        one is Epoch <==> other is Epoch,
        one is EpochNext <==> other is EpochNext,
        one is ActionPropose <==> other is ActionPropose,
        one is Action <==> other is Action,
        one is State <==> other is State,
{
    reveal_strlit("account");
    reveal_strlit("epoch");
    reveal_strlit("epoch_next");
    reveal_strlit("action_propose");
    reveal_strlit("action");
    reveal_strlit("state");
    assert("account"@.len() == 7);
    assert("epoch"@.len() == 5 && "epoch"@[0] == 'e');
    assert("epoch_next"@.len() == 10);
    assert("action_propose"@.len() == 14);
    assert("action"@.len() == 6);
    assert("state"@.len() == 5 && "state"@[0] == 's');
}

/// The client of a pool and a guardian that runs the pool have an API version in common.
pub proof fn law_client_and_server_share_an_api_version()
    ensures
        exists|i: int, j: int|
            0 <= i < client_api_versions().len() && 0 <= j < server_api_versions().len() && (
            #[trigger] client_api_versions()[i]).served_by(#[trigger] server_api_versions()[j]),
{
    assert(client_api_versions()[0].served_by(server_api_versions()[0]));
}

/// Each kind of request goes to its own endpoint, whatever the request carries. A seeker's
/// proposal and a provider's go to the same one.
pub proof fn law_requests_go_to_their_endpoint<S, P>(
    account: XOnlyPublicKey,
    epoch_id: u64,
    proposed: ActionProposed<S, P>,
)
    ensures
        PoolRequest::<S, P>::Account(account).endpoint() == "account"@,
        PoolRequest::<S, P>::Epoch(epoch_id).endpoint() == "epoch"@,
        PoolRequest::<S, P>::EpochNext.endpoint() == "epoch_next"@,
        PoolRequest::<S, P>::ActionPropose(proposed).endpoint() == "action_propose"@,
        PoolRequest::<S, P>::Action(account).endpoint() == "action"@,
        PoolRequest::<S, P>::State.endpoint() == "state"@,
{
}

/// Two requests of the same kind go to the same endpoint, and two of different kinds do not.
pub proof fn law_one_endpoint_for_each_kind<S, P>(
    one: PoolRequest<S, P>,
    other: PoolRequest<S, P>,
)
    ensures
        one.endpoint() == other.endpoint() <==> {
            ||| one is Account && other is Account
            ||| one is Epoch && other is Epoch
            ||| one is EpochNext && other is EpochNext
            ||| one is ActionPropose && other is ActionPropose
            ||| one is Action && other is Action
            ||| one is State && other is State
        },
{
    if one.endpoint() == other.endpoint() {
        law_endpoints_tell_requests_apart(one, other);
    }
}

/// The action that is signed is the one that was started: it has the same sequence number and
/// the same body, is for the epoch that was asked for and for the account of the key.
pub proof fn law_signed_action_is_the_started_one<Ratio, T, F: Fn(&Action<T>) -> Vec<u8>>(
    module: PoolClientModule<Ratio>,
    unstaged: UnstagedAction<T>,
    epoch_id: u64,
    encode: F,
    signed: SignedAction<T>,
)
    requires
        module.signs(unstaged, epoch_id, encode, signed),
    ensures
        signed.action.sequence == unstaged.sequence,
        signed.action.epoch_id == epoch_id,
        signed.action.body == unstaged.body,
        x_only_public_key(module.key.secret()) == Some(signed.action.account_id.bytes@),
{
}

/// Of two actions that were started at different seconds, the later one has the greater
/// sequence number once it is signed, by as many seconds as it was later; and two actions
/// that are for different epochs stay so.
pub proof fn law_later_actions_have_greater_sequences<Ratio, T, F: Fn(&Action<T>) -> Vec<u8>>(
    module: PoolClientModule<Ratio>,
    encode: F,
    earlier: UnstagedAction<T>,
    earlier_epoch: u64,
    earlier_signed: SignedAction<T>,
    later: UnstagedAction<T>,
    later_epoch: u64,
    later_signed: SignedAction<T>,
)
    requires
        module.signs(earlier, earlier_epoch, encode, earlier_signed),
        module.signs(later, later_epoch, encode, later_signed),
    ensures
        earlier.sequence < later.sequence <==> earlier_signed.action.sequence
            < later_signed.action.sequence,
        later_signed.action.sequence - earlier_signed.action.sequence == later.sequence
            - earlier.sequence,
        later_signed.action.epoch_id - earlier_signed.action.epoch_id == later_epoch
            - earlier_epoch,
        earlier_signed.action.account_id.bytes@ == later_signed.action.account_id.bytes@,
{
}

/// The signature of a signed action is over the digest of the whole action's encoding, and
/// made with the key of the client.
pub proof fn law_signature_covers_the_action<Ratio, T, F: Fn(&Action<T>) -> Vec<u8>>(
    module: PoolClientModule<Ratio>,
    unstaged: UnstagedAction<T>,
    epoch_id: u64,
    encode: F,
    signed: SignedAction<T>,
)
    requires
        module.signs(unstaged, epoch_id, encode, signed),
    ensures
        exists|encoded: Vec<u8>, aux_rand: [u8; 32]|
            {
                &&& #[trigger] call_ensures(encode, (&signed.action,), encoded)
                &&& signed.signature@ == #[trigger] schnorr_signature(
                    sha256(encoded@),
                    module.key.secret(),
                    aux_rand@,
                )
            },
{
    let encoded = choose|encoded: Vec<u8>| #[trigger]
        call_ensures(encode, (&signed.action,), encoded) && is_schnorr_signature(
            signed.signature@,
            sha256(encoded@),
            module.key.secret(),
        );
    let aux_rand = choose|aux_rand: [u8; 32]|
        signed.signature@ == #[trigger] schnorr_signature(
            sha256(encoded@),
            module.key.secret(),
            aux_rand@,
        );
    assert(call_ensures(encode, (&signed.action,), encoded));
    assert(signed.signature@ == schnorr_signature(
        sha256(encoded@),
        module.key.secret(),
        aux_rand@,
    ));
}

/// The client of a pool can talk to API version 0.0 and to no other.
pub proof fn law_client_talks_one_version()
    ensures
        client_api_versions().len() == 1,
        client_api_versions()[0].major == 0,
        client_api_versions()[0].minor == 0,
{
}

} // verus!
