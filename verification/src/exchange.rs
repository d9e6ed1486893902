//! The handshake as both endpoints see it.

use crate::client::session::is_datagram;
use crate::client::session::SessionView;
use crate::network::PackedHeader;
use crate::noise::Phase;
use crate::serialize::lemma_envelope_round_trip;
use crate::server::session::handled;
use crate::server::session::ChannelMessageView;
use crate::server::session::SessionStateView;
use crate::server::session::WorkerActionView;
use crate::server::Endpoint;
use vstd::prelude::*;

verus! {

/// After a handshake that went through, both endpoints are in transport, they
/// hold the same session id, which is not zero, and the device has seen the
/// server's first message.
///
/// The handshake went through when the device has written its request from
/// a session that had not spoken, the worker of a session just opened has
/// answered that request, and the device has accepted the answer.
pub proof fn lemma_handshake_completion(
    device: SessionView,
    request: Seq<u8>,
    addr: Endpoint,
    worker: SessionStateView,
    answered: SessionStateView,
    action: WorkerActionView,
    done: SessionView,
)
    requires
        device.phase == Phase::Idle,
        is_datagram(request, device.request_header()),
        worker == SessionStateView::start(worker.device_id, worker.session_id),
        handled(
            worker,
            ChannelMessageView {
                addr,
                header: PackedHeader::parse(request)->Ok_0,
                body: request.skip(14),
            },
            answered,
            action,
        ),
        action is Respond,
        device.begun().refuses_handshake(
            PackedHeader::parse(action->Respond_0.buf)->Ok_0,
            action->Respond_0.buf.skip(14),
        ) is None,
        done == device.begun().established(PackedHeader::parse(action->Respond_0.buf)->Ok_0),
    ensures
        done.phase == Phase::Transport,
        answered.phase == Phase::Transport,
        done.session_id == answered.session_id,
        done.session_id != 0,
        done.last_server_message_id == 1,
{
    lemma_envelope_round_trip(device.request_header(), request.skip(16));
    let response = action->Respond_0;
    let header = PackedHeader {
        message_type: crate::network::MessageType::HandshakeResponse,
        device_id: worker.device_id,
        session_id: worker.session_id,
        sequence: 1,
        ack: 1,
    };
    lemma_envelope_round_trip(header, response.buf.skip(16));
}

} // verus!
