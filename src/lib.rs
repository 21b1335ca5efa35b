//! Order-based decisions of a path tracer's geometric core: clamping a value
//! to a range, picking the visible root of a ray/sphere intersection, and
//! choosing between refraction and reflection at a glass surface. Each is
//! generic over any `PartialOrd` scalar and verified against its contract.

pub mod order;
