use vstd::prelude::*;
use vstd::string::StringExecFns;
use crate::element::{elem_eq, Element};
use crate::quest::{CraftingTable, Directive, GameStatus, NpcKind, Quest};

verus! {

/// Dialogue line for `npc` when the current quest's target has id
/// `result_id`: a fixed lookup table per NPC, with a default line.
pub open spec fn spec_dialogue(npc: NpcKind, result_id: Seq<char>) -> Seq<char> {
    match npc {
        NpcKind::Squee => (if result_id == "legend_dairy"@ {
            "Debug Text. Combine the two elements,\nthanks xD"@
        } else if result_id == "glacier_ice"@ {
            "Try using the furnace to make some ice will ya? I heard ice in the oven makes it real cold."@
        } else if result_id == "shaved_ice"@ {
            "I need Ice Ice ICE! Try cutting some of that glacier, will ya?"@
        } else if result_id == "utter_ice_cream"@ {
            "Squeeeee neeeeeds ice creeeeem! \n...\nTry mixing some of those ingredients up!."@
        } else {
            "I don't have a response for the current quest."@
        }),
        NpcKind::Conrad => (if result_id == "glacier_ice"@ {
            "The king needs ice, fast!"@
        } else {
            "I don't have a response for the current quest."@
        }),
    }
}

/// The unlock directives owed when a quest with crafting table `t` completes:
/// the mixer and the slicer each need a load directive, the furnace is
/// unlocked from the start.
pub open spec fn spec_unlocks(t: Option<CraftingTable>) -> Seq<Directive> {
    match t {
        Some(CraftingTable::Mixer) => seq![Directive::LoadMixer],
        Some(CraftingTable::Slicer) => seq![Directive::LoadSlicer],
        _ => Seq::empty(),
    }
}

/// The reward directives owed when a quest with rewards `rw` completes: one
/// insert per reward element, in sequence order, duplicates preserved.
pub open spec fn spec_rewards(rw: Option<Vec<Element>>) -> Seq<Directive> {
    match rw {
        Some(v) => v@.map_values(|e: Element| Directive::InsertElement(e)),
        None => Seq::empty(),
    }
}

/// A crafted element completes the game's current quest exactly when a quest
/// is in progress and the element equals that quest's target.
pub open spec fn spec_completes(g: Game, crafted: Element) -> bool {
    &&& g.status == GameStatus::QuestInProgress
    &&& g.current_quest matches Some(q)
    &&& elem_eq(crafted, q.result)
}

/// The quest progression engine: the active NPC, the overall status, the one
/// current quest and the queue of quests still to come.
#[derive(Debug)]
pub struct Game {
    /// The active NPC.
    pub npc: NpcKind,
    pub status: GameStatus,
    pub current_quest: Option<Quest>,
    /// Remaining quests, consumed front to back.
    pub quest_queue: Vec<Quest>,
}

impl Default for Game {
    /// A fresh game: Squee is active and the status is `QuestComplete`, so
    /// that the first `advance` dequeues the first quest.
    fn default() -> (g: Game)
        ensures
            g.npc == NpcKind::Squee,
            g.status == GameStatus::QuestComplete,
            g.current_quest is None,
            g.quest_queue@.len() == 0,
    {
        Game {
            npc: NpcKind::Squee,
            status: GameStatus::QuestComplete,
            current_quest: None,
            quest_queue: Vec::new(),
        }
    }
}

impl Game {
    /// A fresh game with the given quest queue.
    pub fn new(quest_queue: Vec<Quest>) -> (g: Game)
        ensures
            g.npc == NpcKind::Squee,
            g.status == GameStatus::QuestComplete,
            g.current_quest is None,
            g.quest_queue@ == quest_queue@,
    {
        Game {
            npc: NpcKind::Squee,
            status: GameStatus::QuestComplete,
            current_quest: None,
            quest_queue,
        }
    }

    /// The active NPC.
    pub fn get_npc(&self) -> (n: NpcKind)
        ensures
            n == self.npc,
    {
        self.npc
    }

    /// One update tick. When the previous quest was completed, dequeues the
    /// next quest and emits the active NPC's dialogue line for it; when the
    /// queue is exhausted instead, moves to `AllQuestsComplete`. With any
    /// other status this is a no-op.
    pub fn advance(&mut self) -> (d: Option<Directive>)
        ensures
            old(self).status != GameStatus::QuestComplete ==> (*final(self) == *old(self)
                && d is None),
            (old(self).status == GameStatus::QuestComplete && old(self).quest_queue@.len() == 0)
                ==> (final(self).status == GameStatus::AllQuestsComplete
                    && final(self).npc == old(self).npc
                    && final(self).current_quest == old(self).current_quest
                    && final(self).quest_queue@ == old(self).quest_queue@
                    && d is None),
            (old(self).status == GameStatus::QuestComplete && old(self).quest_queue@.len() > 0)
                ==> (final(self).status == GameStatus::QuestInProgress
                    && final(self).npc == old(self).npc
                    && final(self).current_quest == Some(old(self).quest_queue@[0])
                    && final(self).quest_queue@ == old(self).quest_queue@.drop_first()
                    && (d matches Some(dir) && dir matches Directive::Say(n, line)
                        && n == old(self).npc
                        && line@ == spec_dialogue(
                            old(self).npc,
                            old(self).quest_queue@[0].result.id@,
                        ))),
    {
        if self.status != GameStatus::QuestComplete {
            return None;
        }
        if self.quest_queue.len() == 0 {
            self.status = GameStatus::AllQuestsComplete;
            return None;
        }
        self.status = GameStatus::QuestInProgress;
        let q = self.quest_queue.remove(0);
        proof {
            assert(old(self).quest_queue@.remove(0) =~= old(self).quest_queue@.drop_first());
        }
        let line = dialogue_for(self.npc, &q.result.id);
        let npc = self.npc;
        self.current_quest = Some(q);
        Some(Directive::Say(npc, line))
    }

    /// Handles one "element crafted" event, in arrival order. An event that
    /// completes the current quest switches the active NPC to that quest's
    /// NPC, emits the quest's unlock and reward directives and sets the
    /// status to `QuestComplete`; completion is processed once, so a repeated
    /// matching event before the next `advance` is a no-op, as is any event
    /// that does not match the current quest's target.
    pub fn on_element_crafted(&mut self, crafted: &Element) -> (ds: Vec<Directive>)
        ensures
            !spec_completes(*old(self), *crafted) ==> (*final(self) == *old(self) && ds@.len()
                == 0),
            spec_completes(*old(self), *crafted) ==> (old(self).current_quest matches Some(q)
                && final(self).status == GameStatus::QuestComplete
                && final(self).npc == q.npc
                && final(self).current_quest == old(self).current_quest
                && final(self).quest_queue@ == old(self).quest_queue@
                && ds@ == spec_unlocks(q.crafting_table) + spec_rewards(q.rewards)),
    {
        let completes = self.status == GameStatus::QuestInProgress && (match &self.current_quest {
            Some(q) => *crafted == q.result,
            None => false,
        });
        if !completes {
            return Vec::new();
        }
        let mut ds: Vec<Directive> = Vec::new();
        match &self.current_quest {
            Some(q) => {
                self.npc = q.npc;
                match q.crafting_table {
                    Some(CraftingTable::Mixer) => ds.push(Directive::LoadMixer),
                    Some(CraftingTable::Slicer) => ds.push(Directive::LoadSlicer),
                    _ => (),
                }
                match &q.rewards {
                    Some(rewards) => {
                        let n = rewards.len();
                        let mut k: usize = 0;
                        while k < n
                            invariant
                                k <= n,
                                n == rewards@.len(),
                                ds@ == spec_unlocks(q.crafting_table) + rewards@.take(
                                    k as int,
                                ).map_values(|e: Element| Directive::InsertElement(e)),
                            decreases n - k,
                        {
                            ds.push(Directive::InsertElement(rewards[k].duplicate()));
                            proof {
                                assert(rewards@.take(k + 1 as int).drop_last() =~= rewards@.take(
                                    k as int,
                                ));
                                assert(rewards@.take(k + 1 as int).map_values(
                                    |e: Element| Directive::InsertElement(e),
                                ) =~= rewards@.take(k as int).map_values(
                                    |e: Element| Directive::InsertElement(e),
                                ).push(Directive::InsertElement(rewards@[k as int])));
                            }
                            k = k + 1;
                        }
                        proof {
                            assert(rewards@.take(n as int) =~= rewards@);
                        }
                    },
                    None => (),
                }
            },
            None => (),
        }
        self.status = GameStatus::QuestComplete;
        proof {
            assert(ds@ =~= spec_unlocks((old(self).current_quest->Some_0).crafting_table)
                + spec_rewards((old(self).current_quest->Some_0).rewards));
        }
        ds
    }
}

/// Renders the dialogue line for `npc` and the quest target id `result_id`.
pub fn dialogue_for(npc: NpcKind, result_id: &String) -> (line: String)
    ensures
        line@ == spec_dialogue(npc, result_id@),
{
    match npc {
        NpcKind::Squee => {
            if *result_id == String::from_str("legend_dairy") {
                String::from_str("Debug Text. Combine the two elements,\nthanks xD")
            } else if *result_id == String::from_str("glacier_ice") {
                String::from_str(
                    "Try using the furnace to make some ice will ya? I heard ice in the oven makes it real cold.",
                )
            } else if *result_id == String::from_str("shaved_ice") {
                String::from_str("I need Ice Ice ICE! Try cutting some of that glacier, will ya?")
            } else if *result_id == String::from_str("utter_ice_cream") {
                String::from_str(
                    "Squeeeee neeeeeds ice creeeeem! \n...\nTry mixing some of those ingredients up!.",
                )
            } else {
                String::from_str("I don't have a response for the current quest.")
            }
        },
        NpcKind::Conrad => {
            if *result_id == String::from_str("glacier_ice") {
                String::from_str("The king needs ice, fast!")
            } else {
                String::from_str("I don't have a response for the current quest.")
            }
        },
    }
}

} // verus!
