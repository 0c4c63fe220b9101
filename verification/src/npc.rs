use vstd::prelude::*;

verus! {

/// The characters of the story.
#[derive(Debug, Clone, Copy, PartialEq, Eq, Hash, Structural)]
pub enum NpcId {
    Mom,
    Dad,
    OlderBrother,
    YoungerBrother,
    Ben,
}

/// Speaker label of `npc` in the dialogue box.
pub open spec fn npc_name(npc: NpcId) -> Seq<char> {
    match npc {
        NpcId::Mom => "Ben's Mom"@,
        NpcId::Dad => "Ben's Dad"@,
        NpcId::OlderBrother => "Ben's Older Brother"@,
        NpcId::YoungerBrother => "Ben's Younger Brother"@,
        NpcId::Ben => "Ben"@,
    }
}

impl NpcId {
    /// Speaker label shown in the dialogue box. Spelled out as "Ben's ..."
    /// since this is Ben's family, not the player's.
    pub fn name(self) -> (r: &'static str)
        ensures
            r@ == npc_name(self),
    {
        match self {
            NpcId::Mom => "Ben's Mom",
            NpcId::Dad => "Ben's Dad",
            NpcId::OlderBrother => "Ben's Older Brother",
            NpcId::YoungerBrother => "Ben's Younger Brother",
            NpcId::Ben => "Ben",
        }
    }
}

} // verus!
