use vstd::prelude::*;
use crate::element::Element;

verus! {

/// Overall progression status: whether the current quest is still being
/// worked on, has just been completed, or no quests remain.
#[derive(Debug, PartialEq, Eq, Structural, Clone, Copy)]
pub enum GameStatus {
    QuestInProgress,
    QuestComplete,
    AllQuestsComplete,
}

/// A non-player character; exactly one is active at a time.
#[derive(Debug, PartialEq, Eq, Structural, Clone, Copy)]
pub enum NpcKind {
    Squee,
    Conrad,
}

/// A crafting station. The furnace is unlocked from the start; the mixer and
/// the slicer need an unlock directive.
#[derive(Debug, PartialEq, Eq, Structural, Clone, Copy)]
pub enum CraftingTable {
    Mixer,
    Slicer,
    Furnace,
}

/// A unit of progression: craft `result` for `npc`. Completing it may unlock
/// a crafting table and grant reward elements.
#[derive(Debug)]
pub struct Quest {
    pub result: Element,
    pub npc: NpcKind,
    pub crafting_table: Option<CraftingTable>,
    pub rewards: Option<Vec<Element>>,
}

/// A side-effect directive emitted by the progression engine and performed by
/// the host: NPC dialogue, crafting-station unlocks, reward grants.
#[derive(Debug)]
pub enum Directive {
    Say(NpcKind, String),
    LoadMixer,
    LoadSlicer,
    InsertElement(Element),
}

} // verus!
