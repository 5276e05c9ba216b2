//! The command types, and how an external command becomes an internal one.

use vstd::prelude::*;

verus! {

/// A three-component vector of 64-bit floating-point scalars, each component
/// carried as its IEEE 754 bit pattern. The all-zero pattern is the bit
/// pattern of positive zero, so `Vector3 { x: 0, y: 0, z: 0 }` stands for the
/// zero vector. Nothing is rejected at this layer: NaN and infinity patterns
/// pass through like any other.
#[derive(Clone, Copy, Debug, PartialEq, Eq, Structural)]
pub struct Vector3 {
    pub x: u64,
    pub y: u64,
    pub z: u64,
}

/// An external velocity command as it arrives over the wire: each of the two
/// vectors may be entirely absent, which is distinct from an explicit zero.
#[derive(Clone, Copy, Debug, PartialEq)]
pub struct ExternalCommand {
    pub linear: Option<Vector3>,
    pub angular: Option<Vector3>,
}

/// An internal velocity command as the middleware consumes it: both vectors
/// are always present.
#[derive(Clone, Copy, Debug, PartialEq)]
pub struct InternalCommand {
    pub linear: Vector3,
    pub angular: Vector3,
}

/// The acknowledgment returned to the caller of the command endpoint.
#[derive(Clone, Copy, Debug, PartialEq, Eq, Structural)]
pub struct CommandAck {
    pub success: bool,
}

/// The zero vector: the bit pattern of positive zero in every component.
pub open spec fn zero_vector() -> Vector3 {
    Vector3 { x: 0, y: 0, z: 0 }
}

/// The default-fill rule for one field: a present vector is kept as it is,
/// an absent one stands for the zero vector.
pub open spec fn coalesce(field: Option<Vector3>) -> Vector3 {
    match field {
        Option::Some(v) => v,
        Option::None => zero_vector(),
    }
}

/// What translation yields: each field coalesced independently of the other.
pub open spec fn translate_spec(request: ExternalCommand) -> InternalCommand {
    InternalCommand {
        linear: coalesce(request.linear),
        angular: coalesce(request.angular),
    }
}

/// Translate an external command into the internal command to publish.
///
/// Total: every combination of present and absent fields is accepted, and the
/// result is pinned exactly, so two calls on equal inputs yield bit-identical
/// commands.
pub fn translate(request: ExternalCommand) -> (command: InternalCommand)
    ensures
        command == translate_spec(request),
{
    let linear = match request.linear {
        Some(v) => v,
        None => Vector3 { x: 0, y: 0, z: 0 },
    };
    let angular = match request.angular {
        Some(v) => v,
        None => Vector3 { x: 0, y: 0, z: 0 },
    };
    InternalCommand { linear, angular }
}

/// Determinism: the translation of a request depends on the request alone.
pub proof fn lemma_translate_deterministic(first: ExternalCommand, second: ExternalCommand)
    requires
        first == second,
    ensures
        translate_spec(first) == translate_spec(second),
{
}

/// Absence collapsing: replacing each absent field by an explicit zero vector
/// leaves the translation unchanged. In particular a request with both fields
/// absent translates like one with both fields explicitly zero.
pub proof fn lemma_absence_collapsing(request: ExternalCommand)
    ensures
        translate_spec(request) == translate_spec(
            (ExternalCommand {
                linear: Some(coalesce(request.linear)),
                angular: Some(coalesce(request.angular)),
            }),
        ),
{
}

/// Field independence: the linear output depends only on the linear input
/// field, and the angular output only on the angular input field.
pub proof fn lemma_field_independence(first: ExternalCommand, second: ExternalCommand)
    ensures
        first.linear == second.linear ==> translate_spec(first).linear == translate_spec(
            second,
        ).linear,
        first.angular == second.angular ==> translate_spec(first).angular == translate_spec(
            second,
        ).angular,
{
}

/// Component passthrough: a present vector reaches the output unchanged,
/// bit for bit, in each of its three components.
pub proof fn lemma_component_passthrough(request: ExternalCommand, v: Vector3)
    ensures
        request.linear == Some(v) ==> translate_spec(request).linear == v,
        request.angular == Some(v) ==> translate_spec(request).angular == v,
{
}

} // verus!
