//! Making the challenge for a privileged action.
//!
//! The identity document of the ledger address is resolved for the handle
//! it binds. An account that is to be deleted may have lost its document;
//! its challenge is then made for a stand-in handle. The challenge is made
//! for the server's domain at the time of the local clock. Making a
//! challenge changes nothing and authorises nothing by itself.

use crate::challenge::{challenge_at, challenge_text, unix_now, ChallengeError};
use crate::collab::{lowercase, to_lower, Resolution, ResolutionView};
use crate::error::ApiError;
use crate::lexicon::{
    PreIndexActionInput, PreIndexActionInputRef, PreIndexActionInputRefView,
    PreIndexActionInputView, PreIndexActionOutput, PreIndexActionOutputView,
};
use crate::model::ok_view;
use crate::plc_types::bound_handle;
use vstd::prelude::*;

verus! {

/// What a run has established so far: the request, and the domain that the
/// server answers for, if it knows one.
#[derive(Clone, Debug, PartialEq, Eq)]
pub struct PreIndexActionState {
    /// The identity, in lower case.
    pub did: String,
    pub ckb_addr: String,
    pub index: PreIndexActionInputRef,
    pub domain: Option<String>,
}

/// What a [`PreIndexActionState`] holds, as plain values.
pub struct PreIndexActionStateView {
    pub did: Seq<char>,
    pub ckb_addr: Seq<char>,
    pub index: PreIndexActionInputRefView,
    pub domain: Option<Seq<char>>,
}

impl DeepView for PreIndexActionState {
    type V = PreIndexActionStateView;

    open spec fn deep_view(&self) -> PreIndexActionStateView {
        PreIndexActionStateView {
            did: self.did.deep_view(),
            ckb_addr: self.ckb_addr.deep_view(),
            index: self.index.deep_view(),
            domain: self.domain.deep_view(),
        }
    }
}

impl View for PreIndexActionState {
    type V = PreIndexActionStateView;

    open spec fn view(&self) -> PreIndexActionStateView {
        self.deep_view()
    }
}

/// What to do next.
#[derive(Clone, Debug, PartialEq, Eq)]
pub enum PreIndexAction {
    /// Ask the resolver for the identity document of the ledger address.
    Resolve(String),
    /// The run has ended; answer the request with this.
    Succeed(PreIndexActionOutput),
    /// The run has ended; answer the request with this error.
    Fail(ApiError),
}

/// What a [`PreIndexAction`] holds, as plain values.
pub enum PreIndexActionView {
    Resolve(Seq<char>),
    Succeed(PreIndexActionOutputView),
    Fail(ApiError),
}

impl DeepView for PreIndexAction {
    type V = PreIndexActionView;

    open spec fn deep_view(&self) -> PreIndexActionView {
        match self {
            PreIndexAction::Resolve(inner) => PreIndexActionView::Resolve(inner.deep_view()),
            PreIndexAction::Succeed(inner) => PreIndexActionView::Succeed(inner.deep_view()),
            PreIndexAction::Fail(inner) => PreIndexActionView::Fail(inner.deep_view()),
        }
    }
}

impl View for PreIndexAction {
    type V = PreIndexActionView;

    open spec fn view(&self) -> PreIndexActionView {
        self.deep_view()
    }
}

/// One turn of a run.
#[derive(Clone, Debug, PartialEq, Eq)]
pub struct PreIndexTurn {
    pub next: Option<PreIndexActionState>,
    pub action: PreIndexAction,
}

/// What a [`PreIndexTurn`] holds, as plain values.
pub struct PreIndexTurnView {
    pub next: Option<PreIndexActionStateView>,
    pub action: PreIndexActionView,
}

impl DeepView for PreIndexTurn {
    type V = PreIndexTurnView;

    open spec fn deep_view(&self) -> PreIndexTurnView {
        PreIndexTurnView {
            next: self.next.deep_view(),
            action: self.action.deep_view(),
        }
    }
}

impl View for PreIndexTurn {
    type V = PreIndexTurnView;

    open spec fn view(&self) -> PreIndexTurnView {
        self.deep_view()
    }
}

/// The first turn of a run: a request without a ledger address is refused,
/// any other asks for the identity document of the address.
pub open spec fn pre_index_action_first(
    input: PreIndexActionInputView,
    domain: Option<Seq<char>>,
) -> PreIndexTurnView {
    match input.ckb_addr {
        None => PreIndexTurnView {
            next: None,
            action: PreIndexActionView::Fail(ApiError::CkbAddrNotFound),
        },
        Some(ckb_addr) => PreIndexTurnView {
            next: Some(
                PreIndexActionStateView {
                    did: lowercase(input.did),
                    ckb_addr: ckb_addr,
                    index: input.index,
                    domain: domain,
                },
            ),
            action: PreIndexActionView::Resolve(ckb_addr),
        },
    }
}

/// The handle that stands in for an identity whose document is gone.
pub open spec fn deleted_handle() -> Seq<char> {
    "deleteHandle"@
}

/// The handle that the challenge is made for: the one that the document
/// binds; the stand-in where the ledger holds no document and the account is
/// to be deleted; else the error of the resolver.
pub open spec fn challenge_handle(
    resolution: ResolutionView,
    index: PreIndexActionInputRefView,
) -> Result<Seq<char>, ApiError> {
    match resolution {
        ResolutionView::Found(doc) => match bound_handle(doc.also_known_as) {
            Some(handle) => Ok(handle),
            None => Err(ApiError::IncompatibleDidDoc),
        },
        ResolutionView::Failed(e) => if e == ApiError::CkbDidocCellNotFound
            && index is DeleteAccountIndex {
            Ok(deleted_handle())
        } else {
            Err(e)
        },
    }
}

/// The answer to the request, for what the resolver gave and a reading of
/// the clock.
pub open spec fn pre_index_action_result(
    state: PreIndexActionStateView,
    resolution: ResolutionView,
    now: Option<u64>,
) -> Result<PreIndexActionOutputView, ApiError> {
    match challenge_handle(resolution, state.index) {
        Err(e) => Err(e),
        Ok(handle) => match state.domain {
            None => Err(ApiError::UnsupportedDomain),
            Some(domain) => match now {
                None => Err(ApiError::Challenge(ChallengeError::ClockUnavailable)),
                Some(t) => Ok(
                    PreIndexActionOutputView {
                        did: state.did,
                        handle: handle,
                        message: challenge_text(
                            domain,
                            state.ckb_addr,
                            handle,
                            t,
                            state.index.statement_text(),
                        ),
                    },
                ),
            },
        },
    }
}

/// The first turn of a run, for the domain that the server answers for.
pub fn pre_index_action_start(input: PreIndexActionInput, domain: Option<String>) -> (out:
    PreIndexTurn)
    ensures
        out@ == pre_index_action_first(input@, domain.deep_view()),
{
    let PreIndexActionInput { did, ckb_addr, index } = input;
    match ckb_addr {
        None => PreIndexTurn { next: None, action: PreIndexAction::Fail(ApiError::CkbAddrNotFound) },
        Some(ckb_addr) => {
            let action = PreIndexAction::Resolve(ckb_addr.clone());
            PreIndexTurn {
                next: Some(
                    PreIndexActionState { did: to_lower(did.as_str()), ckb_addr, index, domain },
                ),
                action,
            }
        },
    }
}

/// The handle that the challenge is made for.
fn handle_for(resolution: &Resolution, index: &PreIndexActionInputRef) -> (out: Result<
    String,
    ApiError,
>)
    ensures
        ok_view(out) == challenge_handle(resolution@, index@),
{
    match resolution {
        Resolution::Found(doc) => match doc.handle() {
            Some(handle) => Ok(handle),
            None => Err(ApiError::IncompatibleDidDoc),
        },
        Resolution::Failed(e) => match e {
            ApiError::CkbDidocCellNotFound => if index.is_delete_account() {
                Ok(String::from_str("deleteHandle"))
            } else {
                Err(*e)
            },
            _ => Err(*e),
        },
    }
}

/// The answer to the request, for what the resolver gave and a reading of
/// the clock.
pub fn pre_index_action_finish_at(
    state: PreIndexActionState,
    resolution: Resolution,
    now: Option<u64>,
) -> (out: Result<PreIndexActionOutput, ApiError>)
    ensures
        ok_view(out) == pre_index_action_result(state@, resolution@, now),
{
    let handle = match handle_for(&resolution, &state.index) {
        Ok(handle) => handle,
        Err(e) => {
            return Err(e);
        },
    };
    let PreIndexActionState { did, ckb_addr, index, domain } = state;
    let domain = match domain {
        Some(domain) => domain,
        None => {
            return Err(ApiError::UnsupportedDomain);
        },
    };
    let statement = index.statement();
    match challenge_at(
        now,
        domain.as_str(),
        ckb_addr.as_str(),
        handle.as_str(),
        statement.as_str(),
    ) {
        Ok(message) => Ok(PreIndexActionOutput { did, handle, message }),
        Err(e) => Err(ApiError::Challenge(e)),
    }
}

/// The answer to the request, for what the resolver gave, by the local
/// clock.
pub fn pre_index_action_finish(state: PreIndexActionState, resolution: Resolution) -> (out: Result<
    PreIndexActionOutput,
    ApiError,
>)
    ensures
        exists|now: Option<u64>|
            ok_view(out) == #[trigger] pre_index_action_result(state@, resolution@, now),
{
    let now = unix_now();
    let out = pre_index_action_finish_at(state, resolution, now);
    assert(ok_view(out) == pre_index_action_result(state@, resolution@, now));
    out
}

} // verus!
