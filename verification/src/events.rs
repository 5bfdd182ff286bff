use vstd::prelude::*;

verus! {

/// Emitted by the conversation minigame when the player wins it.
#[derive(Clone, Copy, Debug)]
pub struct ConvWinEvent();

/// Emitted by the conversation minigame when the player loses it.
#[derive(Clone, Copy, Debug)]
pub struct ConvLossEvent();

/// Emitted by the fight minigame when the player wins it.
#[derive(Clone, Copy, Debug)]
pub struct FightWinEvent();

/// Emitted by the fight minigame when the player loses it.
#[derive(Clone, Copy, Debug)]
pub struct FightLossEvent();

} // verus!
