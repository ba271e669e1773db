use vstd::prelude::*;
use crate::errors::TunnelError;

verus! {

/// MTU forced onto every tunnel configuration. The standard value for
/// this tunnel type (1500 minus the encapsulation overhead); proxying
/// intermediaries may reject connections advertising an unusually
/// small maximum segment size, so the override is unconditional.
pub const TUNNEL_MTU: u16 = 1420;

/// A tunnel configuration as this layer sees it: the MTU field it
/// owns, and an opaque payload `P` (keys, peer endpoint, addresses)
/// that only the transport reads.
pub struct TunnelConfig<P> {
    pub mtu: Option<u16>,
    pub payload: P,
}

impl<P> TunnelConfig<P> {
    /// Forces the MTU to the fixed compatibility value, leaving the
    /// rest of the configuration untouched. Applied to every
    /// configuration the acquisition flow produces, whichever path
    /// produced it.
    pub fn apply_mtu_override(&mut self)
        ensures
            final(self).mtu == Some(TUNNEL_MTU),
            final(self).payload == old(self).payload,
    {
        self.mtu = Some(TUNNEL_MTU);
    }
}

/// Where the credential-acquisition flow stands. Each non-terminal
/// state names the one piece of outside work (file read, config fetch,
/// registration, file write) the driver must perform next; the driver
/// reports its outcome as an `AcquireEvent` and the flow advances with
/// `acquire_step`. `R` is the credential record, `P` the opaque part
/// of the configuration.
pub enum AcquireState<R, P> {
    /// Next: read and parse the credential file at the given path.
    LoadCredentials,
    /// Next: fetch a fresh configuration using these loaded credentials.
    FetchConfig { creds: R },
    /// Next: register a new device with the provisioner.
    Register,
    /// Next: persist the newly registered credentials to the file.
    SaveCredentials { config: TunnelConfig<P>, creds: R },
    /// Terminal: a configuration (MTU already overridden) and the
    /// credentials that obtained it.
    Done { config: TunnelConfig<P>, creds: R },
    /// Terminal: acquisition failed with the recorded error.
    Failed { error: TunnelError },
}

/// The outcome of the piece of outside work a state asked for. Error
/// strings carry the collaborator's own description of the failure.
#[allow(inconsistent_fields)]
pub enum AcquireEvent<R, P> {
    /// The credential file was read and parsed (`Some`), or it was
    /// missing or unparsable (`None`).
    CredentialsLoaded { creds: Option<R> },
    /// The provisioner returned a fresh configuration for existing
    /// credentials, or refused them.
    ConfigFetched { result: Result<TunnelConfig<P>, String> },
    /// The provisioner registered a new device, or failed to.
    Registered { result: Result<(TunnelConfig<P>, R), String> },
    /// The credential file was written, or could not be.
    Saved { result: Result<(), String> },
}

/// Whether an event reports the work that a state asked for.
pub open spec fn event_fits<R, P>(state: AcquireState<R, P>, event: AcquireEvent<R, P>) -> bool {
    match state {
        AcquireState::LoadCredentials => event is CredentialsLoaded,
        AcquireState::FetchConfig { .. } => event is ConfigFetched,
        AcquireState::Register => event is Registered,
        AcquireState::SaveCredentials { .. } => event is Saved,
        AcquireState::Done { .. } => false,
        AcquireState::Failed { .. } => false,
    }
}

/// The acquisition flow's transition relation.
///
/// Load path: credentials that parse are tried against the
/// provisioner; a fresh configuration ends the flow at once (nothing
/// is rewritten to disk). A missing or unparsable file, or a refused
/// fetch, falls through to registration. Register path: a successful
/// registration must still be persisted before the flow completes;
/// a registration failure is terminal with `WarpRegistration`, a
/// persistence failure terminal with `CredentialPersistence` (the
/// fresh credentials are lost, so the start as a whole fails). On
/// both success paths the configuration's MTU is overridden before
/// the configuration leaves the flow.
pub open spec fn acquire_next<R, P>(
    state: AcquireState<R, P>,
    event: AcquireEvent<R, P>,
) -> AcquireState<R, P> {
    match (state, event) {
        (AcquireState::LoadCredentials, AcquireEvent::CredentialsLoaded { creds }) => match creds {
            Some(c) => AcquireState::FetchConfig { creds: c },
            None => AcquireState::Register,
        },
        (AcquireState::FetchConfig { creds }, AcquireEvent::ConfigFetched { result }) => match result {
            Ok(config) => AcquireState::Done {
                config: TunnelConfig { mtu: Some(TUNNEL_MTU), payload: config.payload },
                creds,
            },
            Err(_) => AcquireState::Register,
        },
        (AcquireState::Register, AcquireEvent::Registered { result }) => match result {
            Ok((config, creds)) => AcquireState::SaveCredentials {
                config: TunnelConfig { mtu: Some(TUNNEL_MTU), payload: config.payload },
                creds,
            },
            Err(detail) => AcquireState::Failed { error: TunnelError::WarpRegistration(detail) },
        },
        (AcquireState::SaveCredentials { config, creds }, AcquireEvent::Saved { result }) => match result {
            Ok(_) => AcquireState::Done { config, creds },
            Err(detail) => AcquireState::Failed {
                error: TunnelError::CredentialPersistence(detail),
            },
        },
        (s, _) => s,
    }
}

/// Advances the acquisition flow by one reported outcome.
pub fn acquire_step<R, P>(state: AcquireState<R, P>, event: AcquireEvent<R, P>) -> (next:
    AcquireState<R, P>)
    requires
        event_fits(state, event),
    ensures
        next == acquire_next(state, event),
{
    match (state, event) {
        (AcquireState::LoadCredentials, AcquireEvent::CredentialsLoaded { creds }) => match creds {
            Some(c) => AcquireState::FetchConfig { creds: c },
            None => AcquireState::Register,
        },
        (AcquireState::FetchConfig { creds }, AcquireEvent::ConfigFetched { result }) => match result {
            Ok(mut config) => {
                config.apply_mtu_override();
                AcquireState::Done { config, creds }
            },
            Err(_) => AcquireState::Register,
        },
        (AcquireState::Register, AcquireEvent::Registered { result }) => match result {
            Ok((mut config, creds)) => {
                config.apply_mtu_override();
                AcquireState::SaveCredentials { config, creds }
            },
            Err(detail) => AcquireState::Failed { error: TunnelError::WarpRegistration(detail) },
        },
        (AcquireState::SaveCredentials { config, creds }, AcquireEvent::Saved { result }) => match result {
            Ok(_) => AcquireState::Done { config, creds },
            Err(detail) => AcquireState::Failed {
                error: TunnelError::CredentialPersistence(detail),
            },
        },
        (s, _) => s,
    }
}

/// The MTU override is settled before a configuration can leave the
/// flow: in every state that carries a finished configuration, the
/// MTU equals `TUNNEL_MTU`.
pub open spec fn mtu_settled<R, P>(state: AcquireState<R, P>) -> bool {
    match state {
        AcquireState::SaveCredentials { config, .. } => config.mtu == Some(TUNNEL_MTU),
        AcquireState::Done { config, .. } => config.mtu == Some(TUNNEL_MTU),
        _ => true,
    }
}

/// MTU override law: every configuration the acquisition flow
/// produces — by the load path or the register path — carries the
/// fixed MTU, whatever the provisioner returned. `mtu_settled` holds
/// of the initial state and every step preserves it, so it holds of
/// every reachable state, in particular of every terminal `Done`.
pub proof fn lemma_acquire_mtu_override<R, P>(state: AcquireState<R, P>, event: AcquireEvent<R, P>)
    requires
        mtu_settled(state),
    ensures
        mtu_settled(acquire_next(state, event)),
        mtu_settled(AcquireState::<R, P>::LoadCredentials),
{
}

} // verus!
