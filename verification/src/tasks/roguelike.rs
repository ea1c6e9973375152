//! The RogueLike task: repeated exploration runs.

use vstd::prelude::*;
use core::marker::PhantomData;
use crate::jsontext::{dec_u64, json_str, spec_dec, spec_json_bool, spec_json_str};
use crate::tasks::{Paused, Running, State, StoppedTask};

verus! {

/// The exploration theme.
#[derive(Debug, Clone, Copy, PartialEq, Eq, Structural)]
pub enum RogueLikeTheme {
    Phantom,
    Mizuki,
}

/// The wire name of each theme.
pub open spec fn spec_roguelike_theme_name(t: RogueLikeTheme) -> Seq<char> {
    match t {
        RogueLikeTheme::Phantom => "Phantom"@,
        RogueLikeTheme::Mizuki => "Mizuki"@,
    }
}

impl RogueLikeTheme {
    /// The wire name of this theme.
    pub fn as_str(&self) -> (r: &'static str)
        ensures
            r@ == spec_roguelike_theme_name(*self),
    {
        match self {
            RogueLikeTheme::Phantom => "Phantom",
            RogueLikeTheme::Mizuki => "Mizuki",
        }
    }
}

/// The goal of a run: climb as many floors as possible, or invest and leave.
#[derive(Debug, Clone, Copy, PartialEq, Eq, Structural)]
pub enum RogueLikeMode {
    MostFloors,
    FarmMoney,
}

/// The numeric code of each mode.
pub open spec fn spec_roguelike_mode_code(m: RogueLikeMode) -> int {
    match m {
        RogueLikeMode::MostFloors => 0,
        RogueLikeMode::FarmMoney => 1,
    }
}

impl RogueLikeMode {
    /// The numeric code of this mode, as the engine expects it.
    pub fn code(&self) -> (r: usize)
        ensures
            r as int == spec_roguelike_mode_code(*self),
    {
        match self {
            RogueLikeMode::MostFloors => 0,
            RogueLikeMode::FarmMoney => 1,
        }
    }
}

/// The starting squad.
#[derive(Debug, Clone, Copy, PartialEq, Eq, Structural)]
pub enum RogueLikeSquad {
    Leader,
    Gathering,
    Support,
    Spearhead,
    TacticalAssault,
    TacticalFortification,
    TacticalRanged,
    TacticalDestruction,
    Research,
    FirstClass,
    MindOverMatter,
    Resourceful,
    PeopleOriented,
}

/// The in-game name of each squad.
pub open spec fn spec_roguelike_squad_name(s: RogueLikeSquad) -> Seq<char> {
    match s {
        RogueLikeSquad::Leader => "指挥分队"@,
        RogueLikeSquad::Gathering => "集群分队"@,
        RogueLikeSquad::Support => "后勤分队"@,
        RogueLikeSquad::Spearhead => "矛头分队"@,
        RogueLikeSquad::TacticalAssault => "突击战术分队"@,
        RogueLikeSquad::TacticalFortification => "堡垒战术分队"@,
        RogueLikeSquad::TacticalRanged => "远程战术分队"@,
        RogueLikeSquad::TacticalDestruction => "破坏战术分队"@,
        RogueLikeSquad::Research => "研究分队"@,
        RogueLikeSquad::FirstClass => "高规格分队"@,
        RogueLikeSquad::MindOverMatter => "心胜于物分队"@,
        RogueLikeSquad::Resourceful => "物尽其用分队"@,
        RogueLikeSquad::PeopleOriented => "以人为本分队"@,
    }
}

impl RogueLikeSquad {
    /// The in-game name of this squad.
    pub fn as_str(&self) -> (r: &'static str)
        ensures
            r@ == spec_roguelike_squad_name(*self),
    {
        match self {
            RogueLikeSquad::Leader => "指挥分队",
            RogueLikeSquad::Gathering => "集群分队",
            RogueLikeSquad::Support => "后勤分队",
            RogueLikeSquad::Spearhead => "矛头分队",
            RogueLikeSquad::TacticalAssault => "突击战术分队",
            RogueLikeSquad::TacticalFortification => "堡垒战术分队",
            RogueLikeSquad::TacticalRanged => "远程战术分队",
            RogueLikeSquad::TacticalDestruction => "破坏战术分队",
            RogueLikeSquad::Research => "研究分队",
            RogueLikeSquad::FirstClass => "高规格分队",
            RogueLikeSquad::MindOverMatter => "心胜于物分队",
            RogueLikeSquad::Resourceful => "物尽其用分队",
            RogueLikeSquad::PeopleOriented => "以人为本分队",
        }
    }
}

/// The starting role set.
#[derive(Debug, Clone, Copy, PartialEq, Eq, Structural)]
pub enum RogueLikeRoles {
    AsYourHeartDesires,
    FireMoveAdvance,
    SlowAndSteadyWinsTheRace,
    OvercomingYourWeakness,
}

/// The in-game name of each role set.
pub open spec fn spec_roguelike_roles_name(s: RogueLikeRoles) -> Seq<char> {
    match s {
        RogueLikeRoles::AsYourHeartDesires => "随心所欲"@,
        RogueLikeRoles::FireMoveAdvance => "先手必胜"@,
        RogueLikeRoles::SlowAndSteadyWinsTheRace => "稳扎稳打"@,
        RogueLikeRoles::OvercomingYourWeakness => "取长补短"@,
    }
}

impl RogueLikeRoles {
    /// The in-game name of this role set.
    pub fn as_str(&self) -> (r: &'static str)
        ensures
            r@ == spec_roguelike_roles_name(*self),
    {
        match self {
            RogueLikeRoles::AsYourHeartDesires => "随心所欲",
            RogueLikeRoles::FireMoveAdvance => "先手必胜",
            RogueLikeRoles::SlowAndSteadyWinsTheRace => "稳扎稳打",
            RogueLikeRoles::OvercomingYourWeakness => "取长补短",
        }
    }
}

/// A RogueLike task: unlimited exploration with investment options.
pub struct RogueLike<T: State> {
    pub _phantom: PhantomData<T>,
    pub id: Option<usize>,
    pub theme: String,
    pub mode: usize,
    pub starts_count: usize,
    pub investment_enabled: bool,
    pub investment_count: usize,
    pub stop_when_investment_full: bool,
    pub squad: String,
    pub roles: String,
    pub core_char: String,
    pub use_support: bool,
    pub use_nonfriend_support: bool,
    pub refresh_trader_with_dice: bool,
}

/// The JSON encoding of a RogueLike task: declaration order, optional fields
/// omitted while unset.
pub open spec fn spec_roguelike_json<T: State>(t: RogueLike<T>) -> Seq<char> {
    let s = "{"@;
    let s = s + "\"theme\":"@ + spec_json_str(t.theme@);
    let s = s + ",\"mode\":"@ + spec_dec(t.mode as nat);
    let s = if t.starts_count != 0 {
        s + ",\"starts_count\":"@ + spec_dec(t.starts_count as nat)
    } else {
        s
    };
    let s = s + ",\"investment_enabled\":"@ + spec_json_bool(t.investment_enabled);
    let s = if t.investment_count != 0 {
        s + ",\"investment_count\":"@ + spec_dec(t.investment_count as nat)
    } else {
        s
    };
    let s = s + ",\"stop_when_investment_full\":"@ + spec_json_bool(t.stop_when_investment_full);
    let s = if t.squad@.len() > 0 {
        s + ",\"squad\":"@ + spec_json_str(t.squad@)
    } else {
        s
    };
    let s = if t.roles@.len() > 0 {
        s + ",\"roles\":"@ + spec_json_str(t.roles@)
    } else {
        s
    };
    let s = if t.core_char@.len() > 0 {
        s + ",\"core_char\":"@ + spec_json_str(t.core_char@)
    } else {
        s
    };
    let s = s + ",\"use_support\":"@ + spec_json_bool(t.use_support);
    let s = s + ",\"use_nonfriend_support\":"@ + spec_json_bool(t.use_nonfriend_support);
    let s = s + ",\"refresh_trader_with_dice\":"@ + spec_json_bool(t.refresh_trader_with_dice);
    s + "}"@
}

impl<T: State> RogueLike<T> {
    /// A fresh RogueLike task: theme Phantom, mode zero, investment on, the
    /// default squad and roles, no core operator, no support, no dice.
    pub fn new() -> (r: RogueLike<T>)
        ensures
            r.id is None,
            r.theme@ == "Phantom"@,
            r.mode == 0,
            r.starts_count == 0,
            r.investment_enabled,
            r.investment_count == 0,
            !r.stop_when_investment_full,
            r.squad@ == "指挥分队"@,
            r.roles@ == "取长补短"@,
            r.core_char@ == Seq::<char>::empty(),
            !r.use_support,
            !r.use_nonfriend_support,
            !r.refresh_trader_with_dice,
    {
        RogueLike {
            _phantom: PhantomData,
            id: None,
            theme: "Phantom".to_owned(),
            mode: 0,
            starts_count: 0,
            investment_enabled: true,
            investment_count: 0,
            stop_when_investment_full: false,
            squad: "指挥分队".to_owned(),
            roles: "取长补短".to_owned(),
            core_char: String::new(),
            use_support: false,
            use_nonfriend_support: false,
            refresh_trader_with_dice: false,
        }
    }
}

impl RogueLike<Paused> {
    /// A fresh RogueLike task in *Configurable* state.
    pub fn new_paused() -> (r: RogueLike<Paused>)
        ensures
            r.id is None,
            r.theme@ == "Phantom"@,
            r.mode == 0,
            r.starts_count == 0,
            r.investment_enabled,
            r.investment_count == 0,
            !r.stop_when_investment_full,
            r.squad@ == "指挥分队"@,
            r.roles@ == "取长补短"@,
            r.core_char@ == Seq::<char>::empty(),
            !r.use_support,
            !r.use_nonfriend_support,
            !r.refresh_trader_with_dice,
    {
        Self::new()
    }

    /// The exploration theme.
    pub fn theme(self, theme: RogueLikeTheme) -> (r: RogueLike<Paused>)
        ensures
            r == (RogueLike { theme: r.theme, ..self }),
            r.theme@ == spec_roguelike_theme_name(theme),
    {
        RogueLike { theme: theme.as_str().to_owned(), ..self }
    }

    /// The goal of each run.
    pub fn mode(self, mode: RogueLikeMode) -> (r: RogueLike<Paused>)
        ensures
            r == (RogueLike { mode: r.mode, ..self }),
            r.mode as int == spec_roguelike_mode_code(mode),
    {
        RogueLike { mode: mode.code(), ..self }
    }

    /// Stop after this many runs; zero leaves the count unlimited.
    pub fn starts_count(self, starts_count: usize) -> (r: RogueLike<Paused>)
        ensures
            r == (RogueLike { starts_count, ..self }),
    {
        RogueLike { starts_count, ..self }
    }

    /// Whether to invest ingots.
    pub fn investment_enabled(self, investment_enabled: bool) -> (r: RogueLike<Paused>)
        ensures
            r == (RogueLike { investment_enabled, ..self }),
    {
        RogueLike { investment_enabled, ..self }
    }

    /// Stop after this many investments; zero leaves the count unlimited.
    pub fn investment_count(self, investment_count: usize) -> (r: RogueLike<Paused>)
        ensures
            r == (RogueLike { investment_count, ..self }),
    {
        RogueLike { investment_count, ..self }
    }

    /// Stop once the investment vault is full.
    pub fn stop_when_investment_full(self, stop_when_investment_full: bool) -> (r: RogueLike<
        Paused,
    >)
        ensures
            r == (RogueLike { stop_when_investment_full, ..self }),
    {
        RogueLike { stop_when_investment_full, ..self }
    }

    /// The starting squad.
    pub fn squad(self, squad: RogueLikeSquad) -> (r: RogueLike<Paused>)
        ensures
            r == (RogueLike { squad: r.squad, ..self }),
            r.squad@ == spec_roguelike_squad_name(squad),
    {
        RogueLike { squad: squad.as_str().to_owned(), ..self }
    }

    /// The starting role set.
    pub fn roles(self, roles: RogueLikeRoles) -> (r: RogueLike<Paused>)
        ensures
            r == (RogueLike { roles: r.roles, ..self }),
            r.roles@ == spec_roguelike_roles_name(roles),
    {
        RogueLike { roles: roles.as_str().to_owned(), ..self }
    }

    /// The starting operator, by exact in-game name; empty picks
    /// automatically.
    pub fn core_char(self, core_char: &str) -> (r: RogueLike<Paused>)
        ensures
            r == (RogueLike { core_char: r.core_char, ..self }),
            r.core_char@ == core_char@,
    {
        RogueLike { core_char: core_char.to_owned(), ..self }
    }

    /// Whether the starting operator is borrowed, and whether it may come
    /// from a non-friend.
    pub fn use_support(self, use_support: bool, use_nonfriend_support: bool) -> (r: RogueLike<
        Paused,
    >)
        ensures
            r == (RogueLike { use_support, use_nonfriend_support, ..self }),
    {
        RogueLike { use_support, use_nonfriend_support, ..self }
    }

    /// Whether to refresh the trader's stock with dice.
    pub fn refresh_trader_with_dice(self, refresh_trader_with_dice: bool) -> (r: RogueLike<Paused>)
        ensures
            r == (RogueLike { refresh_trader_with_dice, ..self }),
    {
        RogueLike { refresh_trader_with_dice, ..self }
    }

    /// Freezes the configuration: the one transition out of *Configurable*.
    /// The frozen copy does not carry an assigned id over.
    pub fn start(self) -> (r: RogueLike<Running>)
        ensures
            r.id is None,
            r.theme == self.theme,
            r.mode == self.mode,
            r.starts_count == self.starts_count,
            r.investment_enabled == self.investment_enabled,
            r.investment_count == self.investment_count,
            r.stop_when_investment_full == self.stop_when_investment_full,
            r.squad == self.squad,
            r.roles == self.roles,
            r.core_char == self.core_char,
            r.use_support == self.use_support,
            r.use_nonfriend_support == self.use_nonfriend_support,
            r.refresh_trader_with_dice == self.refresh_trader_with_dice,
            spec_roguelike_json(r) == spec_roguelike_json(self),
    {
        RogueLike {
            _phantom: PhantomData,
            id: None,
            theme: self.theme,
            mode: self.mode,
            starts_count: self.starts_count,
            investment_enabled: self.investment_enabled,
            investment_count: self.investment_count,
            stop_when_investment_full: self.stop_when_investment_full,
            squad: self.squad,
            roles: self.roles,
            core_char: self.core_char,
            use_support: self.use_support,
            use_nonfriend_support: self.use_nonfriend_support,
            refresh_trader_with_dice: self.refresh_trader_with_dice,
        }
    }
}

impl StoppedTask for RogueLike<Paused> {
    open spec fn spec_json(&self) -> Seq<char> {
        spec_roguelike_json(*self)
    }

    open spec fn spec_name(&self) -> Seq<char> {
        "Roguelike"@
    }

    open spec fn spec_id(&self) -> Option<usize> {
        self.id
    }

    fn to_json(&self) -> (r: String) {
        roguelike_to_json(self)
    }

    fn name(&self) -> (r: &'static str) {
        "Roguelike"
    }

    fn set_id(&mut self, id: usize) {
        self.id = Some(id);
    }

    fn id(&self) -> (r: Option<usize>) {
        self.id
    }
}

/// Encodes a RogueLike task, in either state, as its JSON payload.
pub fn roguelike_to_json<T: State>(t: &RogueLike<T>) -> (r: String)
    ensures
        r@ == spec_roguelike_json(*t),
{
    let mut s: String = "{".to_owned();
    s.append("\"theme\":");
    let p = json_str(t.theme.as_str());
    s.append(p.as_str());
    s.append(",\"mode\":");
    let p = dec_u64(t.mode as u64);
    s.append(p.as_str());
    if t.starts_count != 0 {
        s.append(",\"starts_count\":");
        let p = dec_u64(t.starts_count as u64);
        s.append(p.as_str());
    }
    s.append(",\"investment_enabled\":");
    s.append(if t.investment_enabled { "true" } else { "false" });
    if t.investment_count != 0 {
        s.append(",\"investment_count\":");
        let p = dec_u64(t.investment_count as u64);
        s.append(p.as_str());
    }
    s.append(",\"stop_when_investment_full\":");
    s.append(if t.stop_when_investment_full { "true" } else { "false" });
    if !t.squad.as_str().is_empty() {
        s.append(",\"squad\":");
        let p = json_str(t.squad.as_str());
        s.append(p.as_str());
    }
    if !t.roles.as_str().is_empty() {
        s.append(",\"roles\":");
        let p = json_str(t.roles.as_str());
        s.append(p.as_str());
    }
    if !t.core_char.as_str().is_empty() {
        s.append(",\"core_char\":");
        let p = json_str(t.core_char.as_str());
        s.append(p.as_str());
    }
    s.append(",\"use_support\":");
    s.append(if t.use_support { "true" } else { "false" });
    s.append(",\"use_nonfriend_support\":");
    s.append(if t.use_nonfriend_support { "true" } else { "false" });
    s.append(",\"refresh_trader_with_dice\":");
    s.append(if t.refresh_trader_with_dice { "true" } else { "false" });
    s.append("}");
    s
}

} // verus!
