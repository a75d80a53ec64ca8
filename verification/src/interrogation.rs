//! The interrogation room: the three suspects, which of them waits behind
//! the door and which sits in the chair, and how the dialogue's commands
//! move them.

use vstd::prelude::*;

use crate::text::same_text;

verus! {

/// A colour given as red, green and blue bytes.
#[derive(Clone, Copy, PartialEq, Eq, Structural, Debug)]
pub struct Rgb {
    pub r: u8,
    pub g: u8,
    pub b: u8,
}

/// A suspect: the name the dialogue calls them by, and the colour of their
/// figure.
pub struct Suspect {
    pub name: String,
    pub color: Rgb,
}

/// A move requested by the dialogue.
#[derive(Clone, Copy, PartialEq, Eq, Structural, Debug)]
pub enum Movement {
    /// The suspect in the chair goes back through the door.
    SendBackActive,
    /// The suspect at this place of the room's list comes to the chair.
    SendForth(usize),
}

/// The way a suspect walks.
#[derive(Clone, Copy, PartialEq, Eq, Structural, Debug)]
pub enum Direction {
    /// From the door to the chair.
    IntoChair,
    /// From the chair back through the door.
    BackThroughDoor,
}

/// A walk to animate: who walks, and which way.
#[derive(Clone, Copy, PartialEq, Eq, Structural, Debug)]
pub struct Animation {
    pub suspect: usize,
    pub direction: Direction,
}

/// The suspects, with two marks each: `away` (waiting behind the door, as
/// every suspect is when the game starts) and `present` (sitting in the
/// chair).
pub struct Room {
    pub suspects: Vec<Suspect>,
    pub away: Vec<bool>,
    pub present: Vec<bool>,
}

/// Exactly one suspect sits in the chair.
pub open spec fn exactly_one_present(present: Seq<bool>) -> bool {
    exists|i: int| #![trigger present[i]] is_the_seated(present, i)
}

/// `i` is the only suspect in the chair.
pub open spec fn is_the_seated(present: Seq<bool>, i: int) -> bool {
    &&& 0 <= i < present.len()
    &&& present[i]
    &&& forall|j: int| 0 <= j < present.len() && j != i ==> !#[trigger] present[j]
}

/// The suspect in the chair, where exactly one sits there.
pub open spec fn seated_of(present: Seq<bool>) -> int {
    choose|i: int| is_the_seated(present, i)
}

/// The chair marks after one move, where `seated` sat in the chair before
/// the batch of moves began.
pub open spec fn step(present: Seq<bool>, seated: int, m: Movement) -> Seq<bool> {
    match m {
        Movement::SendBackActive => present.update(seated, false),
        Movement::SendForth(i) => present.update(i as int, true),
    }
}

/// The chair marks after a batch of moves, applied in order; `seated` is the
/// suspect in the chair when the batch began, the one that every
/// `SendBackActive` of the batch sends back.
pub open spec fn apply_moves(present: Seq<bool>, seated: int, moves: Seq<Movement>) -> Seq<bool>
    decreases moves.len(),
{
    if moves.len() == 0 {
        present
    } else {
        step(apply_moves(present, seated, moves.drop_last()), seated, moves.last())
    }
}

/// The walk that a move shows.
pub open spec fn animation_of(m: Movement, seated: int) -> Animation {
    match m {
        Movement::SendBackActive => Animation { suspect: seated as usize, direction: Direction::BackThroughDoor },
        Movement::SendForth(i) => Animation { suspect: i, direction: Direction::IntoChair },
    }
}

/// The moves that calling `name` forth asks for: one `SendForth` for each
/// suspect, among the first `n`, who is away and has that name, in list
/// order.
pub open spec fn summon_moves(names: Seq<Seq<char>>, away: Seq<bool>, name: Seq<char>, n: int) -> Seq<Movement>
    decreases n,
{
    if n <= 0 {
        Seq::empty()
    } else if away[n - 1] && names[n - 1] == name {
        summon_moves(names, away, name, n - 1).push(Movement::SendForth((n - 1) as usize))
    } else {
        summon_moves(names, away, name, n - 1)
    }
}

/// Every move names a suspect of the room.
pub open spec fn moves_in_range(moves: Seq<Movement>, len: nat) -> bool {
    forall|k: int| 0 <= k < moves.len() ==> match #[trigger] moves[k] {
        Movement::SendForth(i) => i < len,
        Movement::SendBackActive => true,
    }
}

/// Some move of the batch sends the seated suspect back.
pub open spec fn sends_back(moves: Seq<Movement>) -> bool {
    exists|k: int| 0 <= k < moves.len() && #[trigger] moves[k] == Movement::SendBackActive
}

/// The cast of every game, in the order the figures are placed.
pub open spec fn cast_names() -> Seq<Seq<char>> {
    seq!["Clyde"@, "Glinda"@, "Harry"@]
}

/// The colours of the cast's figures: red, green and blue.
pub open spec fn cast_colors() -> Seq<Rgb> {
    seq![Rgb { r: 255, g: 0, b: 0 }, Rgb { r: 0, g: 255, b: 0 }, Rgb { r: 0, g: 0, b: 255 }]
}

impl Room {
    /// The lists have one entry per suspect.
    pub open spec fn wf(&self) -> bool {
        &&& self.away@.len() == self.suspects@.len()
        &&& self.present@.len() == self.suspects@.len()
    }

    /// The names of the suspects, in list order.
    pub open spec fn names(&self) -> Seq<Seq<char>> {
        self.suspects@.map_values(|s: Suspect| s.name@)
    }

    /// The colours of the suspects, in list order.
    pub open spec fn colors(&self) -> Seq<Rgb> {
        self.suspects@.map_values(|s: Suspect| s.color)
    }

    /// The room as a new game sets it up: Clyde, Glinda and Harry, in that
    /// order, all waiting behind the door, nobody in the chair.
    pub fn launch() -> (room: Room)
        ensures
            room.wf(),
            room.names() =~= cast_names(),
            room.suspects@.len() == 3,
            room.suspects@[0].name@ == "Clyde"@,
            room.suspects@[1].name@ == "Glinda"@,
            room.suspects@[2].name@ == "Harry"@,
            room.suspects@[0].color == (Rgb { r: 255, g: 0, b: 0 }),
            room.suspects@[1].color == (Rgb { r: 0, g: 255, b: 0 }),
            room.suspects@[2].color == (Rgb { r: 0, g: 0, b: 255 }),
            room.colors() =~= cast_colors(),
            room.away@ =~= seq![true, true, true],
            room.present@ =~= seq![false, false, false],
    {
        let mut suspects: Vec<Suspect> = Vec::new();
        suspects.push(Suspect { name: String::from_str("Clyde"), color: Rgb { r: 255, g: 0, b: 0 } });
        suspects.push(Suspect { name: String::from_str("Glinda"), color: Rgb { r: 0, g: 255, b: 0 } });
        suspects.push(Suspect { name: String::from_str("Harry"), color: Rgb { r: 0, g: 0, b: 255 } });
        let room = Room { suspects, away: vec![true, true, true], present: vec![false, false, false] };
        proof {
            assert(room.names()[0] == "Clyde"@);
            assert(room.names()[1] == "Glinda"@);
            assert(room.names()[2] == "Harry"@);
        }
        room
    }

    /// The first suspect in the chair, if any.
    pub fn seated(&self) -> (s: Option<usize>)
        requires
            self.wf(),
        ensures
            s is None <==> (forall|j: int| 0 <= j < self.present@.len() ==> !#[trigger] self.present@[j]),
            s matches Some(i) ==> i < self.present@.len() && self.present@[i as int]
                && forall|j: int| 0 <= j < i ==> !#[trigger] self.present@[j],
    {
        let mut k: usize = 0;
        while k < self.present.len()
            invariant
                k <= self.present@.len(),
                forall|j: int| 0 <= j < k ==> !#[trigger] self.present@[j],
            decreases self.present@.len() - k,
        {
            if self.present[k] {
                return Some(k);
            }
            k = k + 1;
        }
        None
    }

    /// Whether exactly one suspect sits in the chair.
    pub fn exactly_one_seated(&self) -> (b: bool)
        requires
            self.wf(),
        ensures
            b == exactly_one_present(self.present@),
    {
        match self.seated() {
            None => {
                proof {
                    if exactly_one_present(self.present@) {
                        let w = choose|i: int| #![trigger self.present@[i]] is_the_seated(self.present@, i);
                        assert(self.present@[w]);
                    }
                }
                false
            },
            Some(first) => {
                let n: usize = self.present.len();
                let mut k: usize = first + 1;
                while k < n
                    invariant
                        self.wf(),
                        n == self.present@.len(),
                        first < k <= self.present@.len(),
                        self.present@[first as int],
                        forall|j: int| 0 <= j < first ==> !#[trigger] self.present@[j],
                        forall|j: int| first < j < k ==> !#[trigger] self.present@[j],
                    decreases self.present@.len() - k,
                {
                    if self.present[k] {
                        proof {
                            if exactly_one_present(self.present@) {
                                let w = choose|i: int| #![trigger self.present@[i]] is_the_seated(self.present@, i);
                                assert(self.present@[first as int]);
                                assert(self.present@[k as int]);
                            }
                        }
                        return false;
                    }
                    k = k + 1;
                }
                proof {
                    assert(is_the_seated(self.present@, first as int));
                }
                true
            },
        }
    }

    /// Whether `handle_movements` may carry out `moves`: each names a
    /// suspect of the room, and if one sends back the seated suspect, exactly
    /// one sits in the chair.
    pub fn can_handle(&self, moves: &Vec<Movement>) -> (b: bool)
        requires
            self.wf(),
        ensures
            b == (moves_in_range(moves@, self.suspects@.len()) && (sends_back(moves@) ==> exactly_one_present(self.present@))),
    {
        let mut back = false;
        let mut k: usize = 0;
        while k < moves.len()
            invariant
                self.wf(),
                k <= moves@.len(),
                moves_in_range(moves@.take(k as int), self.suspects@.len()),
                back == sends_back(moves@.take(k as int)),
            decreases moves@.len() - k,
        {
            proof {
                assert forall|j: int| 0 <= j < k implies #[trigger] moves@.take(k as int + 1)[j] == moves@.take(k as int)[j] by {}
            }
            match moves[k] {
                Movement::SendForth(i) => {
                    if i >= self.suspects.len() {
                        proof {
                            assert(moves@.take(k as int + 1)[k as int] == moves@[k as int]);
                            assert(!moves_in_range(moves@, self.suspects@.len())) by {
                                assert(moves@[k as int] == Movement::SendForth(i));
                            }
                        }
                        return false;
                    }
                },
                Movement::SendBackActive => {
                    back = true;
                },
            }
            proof {
                let t = moves@.take(k as int + 1);
                assert(t[k as int] == moves@[k as int]);
                if back && !sends_back(moves@.take(k as int)) {
                    assert(t[k as int] == Movement::SendBackActive);
                }
                if sends_back(t) {
                    let m = choose|m: int| 0 <= m < t.len() && #[trigger] t[m] == Movement::SendBackActive;
                    if m < k {
                        assert(moves@.take(k as int)[m] == Movement::SendBackActive);
                    }
                }
                if sends_back(moves@.take(k as int)) {
                    let m = choose|m: int| 0 <= m < k && #[trigger] moves@.take(k as int)[m] == Movement::SendBackActive;
                    assert(t[m] == Movement::SendBackActive);
                }
            }
            k = k + 1;
        }
        proof {
            assert(moves@.take(moves@.len() as int) =~= moves@);
        }
        if back {
            self.exactly_one_seated()
        } else {
            true
        }
    }

    /// The moves that the dialogue's `send_forth` command asks for when it
    /// calls `name`: every suspect who is away and has that name comes to
    /// the chair.
    pub fn send_forth(&self, name: &str) -> (moves: Vec<Movement>)
        requires
            self.wf(),
        ensures
            moves@ == summon_moves(self.names(), self.away@, name@, self.suspects@.len() as int),
            moves_in_range(moves@, self.suspects@.len()),
            !sends_back(moves@),
            forall|m: int| 0 <= m < moves@.len() ==> match #[trigger] moves@[m] {
                Movement::SendForth(i) => i < self.suspects@.len() && self.away@[i as int]
                    && self.suspects@[i as int].name@ == name@,
                Movement::SendBackActive => false,
            },
            forall|i: int| 0 <= i < self.suspects@.len() && #[trigger] self.away@[i]
                && self.suspects@[i].name@ == name@ ==> moves@.contains(Movement::SendForth(i as usize)),
            forall|a: int, b: int| 0 <= a < b < moves@.len() ==> (#[trigger] moves@[a])->0 < (#[trigger] moves@[b])->0,
    {
        let mut moves: Vec<Movement> = Vec::new();
        let mut k: usize = 0;
        while k < self.suspects.len()
            invariant
                self.wf(),
                k <= self.suspects@.len(),
                moves@ == summon_moves(self.names(), self.away@, name@, k as int),
                forall|m: int| 0 <= m < moves@.len() ==> match #[trigger] moves@[m] {
                    Movement::SendForth(i) => i < k && self.away@[i as int]
                        && self.suspects@[i as int].name@ == name@,
                    Movement::SendBackActive => false,
                },
                forall|i: int| 0 <= i < k && #[trigger] self.away@[i]
                    && self.suspects@[i].name@ == name@ ==> moves@.contains(Movement::SendForth(i as usize)),
                forall|a: int, b: int| 0 <= a < b < moves@.len() ==> (#[trigger] moves@[a])->0 < (#[trigger] moves@[b])->0,
            decreases self.suspects@.len() - k,
        {
            let ghost prev = moves@;
            if self.away[k] && same_text(self.suspects[k].name.as_str(), name) {
                moves.push(Movement::SendForth(k));
                proof {
                    assert(moves@[moves@.len() - 1] == Movement::SendForth(k));
                    assert forall|i: int| 0 <= i < k && #[trigger] self.away@[i]
                        && self.suspects@[i].name@ == name@ implies moves@.contains(Movement::SendForth(i as usize)) by {
                        let m = choose|m: int| 0 <= m < prev.len() && prev[m] == Movement::SendForth(i as usize);
                        assert(moves@[m] == prev[m]);
                    }
                }
            }
            proof {
                assert forall|i: int| 0 <= i < k + 1 && #[trigger] self.away@[i]
                    && self.suspects@[i].name@ == name@ implies moves@.contains(Movement::SendForth(i as usize)) by {
                    if i == k {
                        assert(moves@[moves@.len() - 1] == Movement::SendForth(k));
                    }
                }
            }
            k = k + 1;
        }
        moves
    }

    /// Carries out a batch of moves, in order, and gives the walk that each
    /// one shows. Every `SendBackActive` of the batch sends back the suspect
    /// who sat in the chair when the batch began, so that one must sit there
    /// alone if the batch holds such a move.
    pub fn handle_movements(&mut self, moves: &Vec<Movement>) -> (walks: Vec<Animation>)
        requires
            old(self).wf(),
            moves_in_range(moves@, old(self).suspects@.len()),
            sends_back(moves@) ==> exactly_one_present(old(self).present@),
        ensures
            final(self).wf(),
            final(self).suspects@ == old(self).suspects@,
            final(self).away@ == old(self).away@,
            final(self).present@ == apply_moves(old(self).present@, seated_of(old(self).present@), moves@),
            walks@ == moves@.map_values(|m: Movement| animation_of(m, seated_of(old(self).present@))),
            walks@.len() == moves@.len(),
            forall|k: int| 0 <= k < moves@.len() && #[trigger] moves@[k] is SendForth
                ==> walks@[k] == (Animation { suspect: moves@[k]->0, direction: Direction::IntoChair }),
            forall|k: int| 0 <= k < moves@.len() && #[trigger] moves@[k] == Movement::SendBackActive ==> {
                &&& walks@[k].direction == Direction::BackThroughDoor
                &&& walks@[k].suspect < old(self).present@.len()
                &&& old(self).present@[walks@[k].suspect as int]
                &&& forall|j: int| 0 <= j < old(self).present@.len() && j != walks@[k].suspect ==> !#[trigger] old(self).present@[j]
            },
    {
        let ghost start = self.present@;
        let ghost seat = seated_of(start);
        let first = self.seated();
        proof {
            if sends_back(moves@) {
                let w = choose|i: int| #![trigger start[i]] is_the_seated(start, i);
                assert(is_the_seated(start, w));
                assert(is_the_seated(start, seat));
                let f = first.unwrap() as int;
                assert(start[f]);
                assert(f == seat);
            }
        }
        let mut walks: Vec<Animation> = Vec::new();
        let mut k: usize = 0;
        while k < moves.len()
            invariant
                self.wf(),
                self.suspects@ == old(self).suspects@,
                self.away@ == old(self).away@,
                start == old(self).present@,
                start.len() == self.suspects@.len(),
                seat == seated_of(start),
                moves_in_range(moves@, self.suspects@.len()),
                sends_back(moves@) ==> 0 <= seat < start.len() && first == Some(seat as usize),
                k <= moves@.len(),
                self.present@ == apply_moves(start, seat, moves@.take(k as int)),
                walks@ == moves@.take(k as int).map_values(|m: Movement| animation_of(m, seat)),
            decreases moves@.len() - k,
        {
            let m = moves[k];
            let ghost before = self.present@;
            proof {
                assert(moves@.take(k as int + 1).drop_last() =~= moves@.take(k as int));
                assert(moves@.take(k as int + 1).last() == m);
            }
            match m {
                Movement::SendBackActive => {
                    assert(sends_back(moves@)) by {
                        assert(moves@[k as int] == Movement::SendBackActive);
                    }
                    let n: usize = self.present.len();
                    assert(0 <= seat < n);
                    let i = first.unwrap();
                    assert(i as int == seat);
                    self.present.set(i, false);
                    assert(self.present@ == step(before, seat, m));
                    walks.push(Animation { suspect: i, direction: Direction::BackThroughDoor });
                },
                Movement::SendForth(i) => {
                    assert(i < self.suspects@.len()) by {
                        assert(moves@[k as int] == m);
                    }
                    self.present.set(i, true);
                    assert(self.present@ == step(before, seat, m));
                    walks.push(Animation { suspect: i, direction: Direction::IntoChair });
                },
            }
            proof {
                assert(self.present@ == apply_moves(start, seat, moves@.take(k as int + 1)));
                assert(walks@ =~= moves@.take(k as int + 1).map_values(|m: Movement| animation_of(m, seat)));
            }
            k = k + 1;
        }
        proof {
            assert(moves@.take(moves@.len() as int) =~= moves@);
            if sends_back(moves@) {
                let w = choose|i: int| #![trigger start[i]] is_the_seated(start, i);
                assert(is_the_seated(start, w));
                assert(is_the_seated(start, seat));
            }
            assert forall|k: int| 0 <= k < moves@.len() && #[trigger] moves@[k] == Movement::SendBackActive implies {
                &&& walks@[k].direction == Direction::BackThroughDoor
                &&& walks@[k].suspect < old(self).present@.len()
                &&& old(self).present@[walks@[k].suspect as int]
                &&& forall|j: int| 0 <= j < old(self).present@.len() && j != walks@[k].suspect ==> !#[trigger] old(self).present@[j]
            } by {
                assert(sends_back(moves@));
                assert(is_the_seated(start, seat));
                assert(walks@[k] == animation_of(moves@[k], seat));
            }
        }
        walks
    }
}

/// Calling a suspect forth, among the first `k` of the room, seats exactly
/// those of them who are away and have the called name, and changes no other
/// chair mark.
proof fn lemma_summon_prefix(
    names: Seq<Seq<char>>,
    away: Seq<bool>,
    present: Seq<bool>,
    seat: int,
    name: Seq<char>,
    k: int,
)
    requires
        names.len() == present.len(),
        away.len() == present.len(),
        present.len() <= usize::MAX,
        0 <= k <= present.len(),
    ensures
        apply_moves(present, seat, summon_moves(names, away, name, k)).len() == present.len(),
        forall|j: int| 0 <= j < present.len() ==> #[trigger] apply_moves(present, seat, summon_moves(names, away, name, k))[j]
            == if j < k { present[j] || (away[j] && names[j] == name) } else { present[j] },
    decreases k,
{
    if k > 0 {
        lemma_summon_prefix(names, away, present, seat, name, k - 1);
        let prev = summon_moves(names, away, name, k - 1);
        if away[k - 1] && names[k - 1] == name {
            let m = Movement::SendForth((k - 1) as usize);
            assert(prev.push(m).drop_last() =~= prev);
            assert(prev.push(m).last() == m);
            let before = apply_moves(present, seat, prev);
            assert(apply_moves(present, seat, prev.push(m)) == before.update(k - 1, true));
        }
    }
}

/// Law: after the moves that calling `name` forth asks for, every suspect who
/// waits behind the door under that name sits in the chair, and every other
/// suspect's chair mark is as it was.
pub proof fn lemma_summon_seats(
    names: Seq<Seq<char>>,
    away: Seq<bool>,
    present: Seq<bool>,
    seat: int,
    name: Seq<char>,
)
    requires
        names.len() == present.len(),
        away.len() == present.len(),
        present.len() <= usize::MAX,
    ensures
        apply_moves(present, seat, summon_moves(names, away, name, present.len() as int)).len() == present.len(),
        forall|j: int| 0 <= j < present.len() ==> #[trigger] apply_moves(present, seat, summon_moves(names, away, name, present.len() as int))[j]
            == (present[j] || (away[j] && names[j] == name)),
{
    lemma_summon_prefix(names, away, present, seat, name, present.len() as int);
}

/// Law: sending back the suspect who sits alone in the chair leaves the
/// chair empty.
pub proof fn lemma_send_back_empties_chair(present: Seq<bool>)
    requires
        exactly_one_present(present),
    ensures
        forall|j: int| 0 <= j < present.len() ==> !#[trigger] apply_moves(present, seated_of(present), seq![Movement::SendBackActive])[j],
{
    let w = choose|i: int| #![trigger present[i]] is_the_seated(present, i);
    assert(is_the_seated(present, w));
    let s = seated_of(present);
    assert(is_the_seated(present, s));
    let moves = seq![Movement::SendBackActive];
    assert(moves.drop_last() =~= Seq::<Movement>::empty());
    assert(apply_moves(present, s, moves.drop_last()) == present);
    assert(apply_moves(present, s, moves) == present.update(s, false));
}

/// Law: when one suspect sits alone in the chair, sending them back and
/// calling suspect `i` forth, in one batch, leaves `i` alone in the chair.
pub proof fn lemma_swap_seats_one(present: Seq<bool>, i: usize)
    requires
        exactly_one_present(present),
        i < present.len(),
    ensures
        is_the_seated(apply_moves(present, seated_of(present), seq![Movement::SendBackActive, Movement::SendForth(i)]), i as int),
        exactly_one_present(apply_moves(present, seated_of(present), seq![Movement::SendBackActive, Movement::SendForth(i)])),
{
    let w = choose|i: int| #![trigger present[i]] is_the_seated(present, i);
    assert(is_the_seated(present, w));
    let s = seated_of(present);
    assert(is_the_seated(present, s));
    let moves = seq![Movement::SendBackActive, Movement::SendForth(i)];
    let one = seq![Movement::SendBackActive];
    assert(moves.drop_last() =~= one);
    assert(one.drop_last() =~= Seq::<Movement>::empty());
    assert(apply_moves(present, s, one.drop_last()) == present);
    assert(apply_moves(present, s, one) == present.update(s, false));
    let after = apply_moves(present, s, moves);
    assert(after == present.update(s, false).update(i as int, true));
    assert(is_the_seated(after, i as int));
    assert(after[i as int]);
}

/// Law: the cast is three different people.
pub proof fn lemma_cast_distinct()
    ensures
        cast_names().len() == 3,
        forall|a: int, b: int| 0 <= a < 3 && 0 <= b < 3 && a != b ==> cast_names()[a] != cast_names()[b],
{
    reveal_strlit("Clyde");
    reveal_strlit("Glinda");
    reveal_strlit("Harry");
    assert(cast_names()[0] != cast_names()[1]) by {
        assert(cast_names()[0][0] == 'C');
        assert(cast_names()[1][0] == 'G');
    }
    assert(cast_names()[0] != cast_names()[2]) by {
        assert(cast_names()[2][0] == 'H');
    }
    assert(cast_names()[1] != cast_names()[2]) by {
        assert(cast_names()[1][0] == 'G');
        assert(cast_names()[2][0] == 'H');
    }
}

/// Law: the last walk of a batch agrees with the chair marks left by the
/// batch: a suspect last shown walking into the chair sits there, and one
/// last shown walking out through the door does not.
pub proof fn lemma_last_walk_matches_chair(present: Seq<bool>, moves: Seq<Movement>)
    requires
        moves.len() > 0,
        present.len() <= usize::MAX,
        moves_in_range(moves, present.len()),
        sends_back(moves) ==> exactly_one_present(present),
    ensures
        ({
            let w = animation_of(moves.last(), seated_of(present));
            &&& w.suspect < present.len()
            &&& apply_moves(present, seated_of(present), moves)[w.suspect as int] == (w.direction == Direction::IntoChair)
        }),
{
    let s = seated_of(present);
    let last = moves.last();
    let rest = moves.drop_last();
    assert(moves[moves.len() - 1] == last);
    if sends_back(moves) {
        let w = choose|i: int| #![trigger present[i]] is_the_seated(present, i);
        assert(is_the_seated(present, w));
        assert(is_the_seated(present, s));
    }
    assert forall|k: int| 0 <= k < rest.len() implies match #[trigger] rest[k] {
        Movement::SendForth(i) => i < present.len(),
        Movement::SendBackActive => 0 <= s < present.len(),
    } by {
        assert(rest[k] == moves[k]);
        if rest[k] == Movement::SendBackActive {
            assert(sends_back(moves));
        }
    }
    lemma_apply_len(present, s, rest);
    let before = apply_moves(present, s, rest);
    assert(apply_moves(present, s, moves) == step(before, s, last));
    match last {
        Movement::SendBackActive => {
            assert(sends_back(moves));
        },
        Movement::SendForth(i) => {
            assert(i < present.len());
        },
    }
}

/// The chair marks keep their length through a batch whose moves name
/// suspects of the room.
proof fn lemma_apply_len(present: Seq<bool>, seat: int, moves: Seq<Movement>)
    requires
        forall|k: int| 0 <= k < moves.len() ==> match #[trigger] moves[k] {
            Movement::SendForth(i) => i < present.len(),
            Movement::SendBackActive => 0 <= seat < present.len(),
        },
    ensures
        apply_moves(present, seat, moves).len() == present.len(),
    decreases moves.len(),
{
    if moves.len() > 0 {
        let rest = moves.drop_last();
        assert forall|k: int| 0 <= k < rest.len() implies match #[trigger] rest[k] {
            Movement::SendForth(i) => i < present.len(),
            Movement::SendBackActive => 0 <= seat < present.len(),
        } by {
            assert(rest[k] == moves[k]);
        }
        lemma_apply_len(present, seat, rest);
        assert(moves[moves.len() - 1] == moves.last());
    }
}

} // verus!
