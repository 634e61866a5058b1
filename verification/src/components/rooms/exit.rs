use vstd::prelude::*;

verus! {

/// One traversal link in the world graph. An exit connects up to two
/// rooms; a side left `None` is unresolved ("dangling") until the exit
/// is first traversed, at which point a room is generated for it.
#[derive(Clone, Copy, Debug)]
pub struct ExitMap {
    pub exit_id: u128,
    pub left_room_id: Option<u128>,
    pub right_room_id: Option<u128>,
}

impl ExitMap {
    /// The room on the side opposite `room_id`.
    pub open spec fn spec_other_room_id(self, room_id: u128) -> Option<u128> {
        if self.left_room_id == Some(room_id) {
            self.right_room_id
        } else {
            self.left_room_id
        }
    }

    pub fn other_room_id(&self, room_id: u128) -> (r: Option<u128>)
        ensures
            r == self.spec_other_room_id(room_id),
    {
        match self.left_room_id {
            Some(left) if left == room_id => self.right_room_id,
            _ => self.left_room_id,
        }
    }

    /// The entry with its dangling side, if any, resolved to `room_id`.
    /// A fully resolved entry is immutable: it comes back unchanged.
    pub open spec fn spec_resolved_with(self, room_id: u128) -> ExitMap {
        if self.left_room_id is None {
            ExitMap { left_room_id: Some(room_id), ..self }
        } else if self.right_room_id is None {
            ExitMap { right_room_id: Some(room_id), ..self }
        } else {
            self
        }
    }

    pub fn resolved_with(&self, room_id: u128) -> (r: ExitMap)
        ensures
            r == self.spec_resolved_with(room_id),
    {
        if self.left_room_id.is_none() {
            ExitMap {
                exit_id: self.exit_id,
                left_room_id: Some(room_id),
                right_room_id: self.right_room_id,
            }
        } else if self.right_room_id.is_none() {
            ExitMap {
                exit_id: self.exit_id,
                left_room_id: self.left_room_id,
                right_room_id: Some(room_id),
            }
        } else {
            *self
        }
    }

    /// Whether both sides of the exit are resolved.
    pub open spec fn is_fully_resolved(self) -> bool {
        self.left_room_id is Some && self.right_room_id is Some
    }
}

} // verus!
