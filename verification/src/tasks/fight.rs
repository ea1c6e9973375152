//! The Fight task: spend sanity on a stage, with optional stop conditions.

use vstd::prelude::*;
use core::marker::PhantomData;
use crate::jsontext::{
    dec_u64, json_num_obj, json_str, lemma_escape_plain, spec_dec, spec_escape, spec_json_bool,
    spec_json_num_obj, spec_json_str, spec_plain,
};
use crate::tasks::{
    spec_client_type_name, spec_server_name, ClientType, Paused, Running, Server, State,
    StoppedTask,
};

verus! {

/// A Fight task. Optional fields (stage, the counters, the drop target) are
/// omitted from the JSON encoding while unset, zero or empty, to match the
/// engine's defaulting.
pub struct Fight<T: State> {
    pub _phantom: PhantomData<T>,
    pub id: Option<usize>,
    pub stage: String,
    pub medicine: usize,
    pub expiring_medicine: usize,
    pub stone: usize,
    pub times: usize,
    pub drop: Vec<(String, usize)>,
    pub report_to_penguin: bool,
    pub penguin_id: String,
    pub server: String,
    pub client_type: String,
    pub dr_grandet: bool,
}

/// The JSON encoding of a Fight task: declaration order, optional fields
/// omitted while unset.
pub open spec fn spec_fight_json<T: State>(f: Fight<T>) -> Seq<char> {
    let s = "{"@;
    let s = if f.stage@.len() > 0 {
        s + "\"stage\":"@ + spec_json_str(f.stage@) + ","@
    } else {
        s
    };
    let s = if f.medicine != 0 {
        s + "\"medicine\":"@ + spec_dec(f.medicine as nat) + ","@
    } else {
        s
    };
    let s = if f.expiring_medicine != 0 {
        s + "\"expiring_medicine\":"@ + spec_dec(f.expiring_medicine as nat) + ","@
    } else {
        s
    };
    let s = if f.stone != 0 {
        s + "\"stone\":"@ + spec_dec(f.stone as nat) + ","@
    } else {
        s
    };
    let s = if f.times != 0 {
        s + "\"times\":"@ + spec_dec(f.times as nat) + ","@
    } else {
        s
    };
    let s = if f.drop@.len() > 0 {
        s + "\"drop\":"@ + spec_json_num_obj(
            f.drop@.map_values(|e: (String, usize)| (e.0@, e.1 as nat)),
        ) + ","@
    } else {
        s
    };
    let s = s + "\"report_to_penguin\":"@ + spec_json_bool(f.report_to_penguin);
    let s = if f.penguin_id@.len() > 0 {
        s + ",\"penguin_id\":"@ + spec_json_str(f.penguin_id@)
    } else {
        s
    };
    let s = s + ",\"server\":"@ + spec_json_str(f.server@);
    let s = s + ",\"client_type\":"@ + spec_json_str(f.client_type@);
    let s = s + ",\"DrGrandet\":"@ + spec_json_bool(f.dr_grandet);
    s + "}"@
}

impl<T: State> Fight<T> {
    /// A fresh Fight task: no stage, no counters, no drop target, no
    /// reporting, server `CN`, no client type, no stone-saving mode.
    pub fn new() -> (r: Fight<T>)
        ensures
            r.id is None,
            r.stage@ == Seq::<char>::empty(),
            r.medicine == 0,
            r.expiring_medicine == 0,
            r.stone == 0,
            r.times == 0,
            r.drop@ == Seq::<(String, usize)>::empty(),
            !r.report_to_penguin,
            r.penguin_id@ == Seq::<char>::empty(),
            r.server@ == "CN"@,
            r.client_type@ == Seq::<char>::empty(),
            !r.dr_grandet,
    {
        Fight {
            _phantom: PhantomData,
            id: None,
            stage: String::new(),
            medicine: 0,
            expiring_medicine: 0,
            stone: 0,
            times: 0,
            drop: Vec::new(),
            report_to_penguin: false,
            penguin_id: String::new(),
            server: "CN".to_owned(),
            client_type: String::new(),
            dr_grandet: false,
        }
    }
}

impl Fight<Paused> {
    /// A fresh Fight task in *Configurable* state.
    pub fn new_paused() -> (r: Fight<Paused>)
        ensures
            r.id is None,
            r.stage@ == Seq::<char>::empty(),
            r.medicine == 0,
            r.expiring_medicine == 0,
            r.stone == 0,
            r.times == 0,
            r.drop@ == Seq::<(String, usize)>::empty(),
            !r.report_to_penguin,
            r.penguin_id@ == Seq::<char>::empty(),
            r.server@ == "CN"@,
            r.client_type@ == Seq::<char>::empty(),
            !r.dr_grandet,
    {
        Self::new()
    }

    /// The largest number of sanity potions to use.
    pub fn use_medicine(self, medicine: usize) -> (r: Fight<Paused>)
        ensures
            r == (Fight { medicine, ..self }),
    {
        Fight { medicine, ..self }
    }

    /// The largest number of expiring sanity potions to use.
    pub fn use_expiring_medicine(self, expiring_medicine: usize) -> (r: Fight<Paused>)
        ensures
            r == (Fight { expiring_medicine, ..self }),
    {
        Fight { expiring_medicine, ..self }
    }

    /// The largest number of originite prime to break.
    pub fn use_stone(self, stone: usize) -> (r: Fight<Paused>)
        ensures
            r == (Fight { stone, ..self }),
    {
        Fight { stone, ..self }
    }

    /// Stop after this many battles.
    pub fn stop_with_times(self, times: usize) -> (r: Fight<Paused>)
        ensures
            r == (Fight { times, ..self }),
    {
        Fight { times, ..self }
    }

    /// Stop once the given items (by identifier from the item index) have
    /// dropped the given number of times.
    pub fn stop_when_drop(self, drop: Vec<(String, usize)>) -> (r: Fight<Paused>)
        ensures
            r == (Fight { drop: r.drop, ..self }),
            r.drop == drop,
    {
        Fight { drop, ..self }
    }

    /// Report battle results under the given reporting id.
    pub fn report_to_penguin(self, penguin_id: String) -> (r: Fight<Paused>)
        ensures
            r == (Fight { report_to_penguin: true, penguin_id: r.penguin_id, ..self }),
            r.penguin_id == penguin_id,
    {
        Fight { report_to_penguin: true, penguin_id, ..self }
    }

    /// The server that drop recognition and reporting assume.
    pub fn server(self, server: Server) -> (r: Fight<Paused>)
        ensures
            r == (Fight { server: r.server, ..self }),
            r.server@ == spec_server_name(server),
    {
        Fight { server: server.as_str().to_owned(), ..self }
    }

    /// The client to restart and reconnect to if the game crashes; empty
    /// leaves the feature off.
    pub fn client_type(self, client_type: ClientType) -> (r: Fight<Paused>)
        ensures
            r == (Fight { client_type: r.client_type, ..self }),
            r.client_type@ == spec_client_type_name(client_type),
    {
        Fight { client_type: client_type.as_str().to_owned(), ..self }
    }

    /// Wait at the break-stone confirmation until the pending sanity point
    /// has regenerated before breaking.
    pub fn dr_grandet(self, dr_grandet: bool) -> (r: Fight<Paused>)
        ensures
            r == (Fight { dr_grandet, ..self }),
    {
        Fight { dr_grandet, ..self }
    }

    /// The stage to fight, e.g. `1-7`; empty repeats the current or last
    /// stage. Not configurable once submitted.
    pub fn stage(self, stage: &str) -> (r: Fight<Paused>)
        ensures
            r == (Fight { stage: r.stage, ..self }),
            r.stage@ == stage@,
    {
        Fight { stage: stage.to_owned(), ..self }
    }

    /// Freezes the configuration: the one transition out of *Configurable*.
    pub fn start(self) -> (r: Fight<Running>)
        ensures
            r.id == self.id,
            r.stage == self.stage,
            r.medicine == self.medicine,
            r.expiring_medicine == self.expiring_medicine,
            r.stone == self.stone,
            r.times == self.times,
            r.drop == self.drop,
            r.report_to_penguin == self.report_to_penguin,
            r.penguin_id == self.penguin_id,
            r.server == self.server,
            r.client_type == self.client_type,
            r.dr_grandet == self.dr_grandet,
            spec_fight_json(r) == spec_fight_json(self),
    {
        Fight {
            _phantom: PhantomData,
            id: self.id,
            stage: self.stage,
            medicine: self.medicine,
            expiring_medicine: self.expiring_medicine,
            stone: self.stone,
            times: self.times,
            drop: self.drop,
            report_to_penguin: self.report_to_penguin,
            penguin_id: self.penguin_id,
            server: self.server,
            client_type: self.client_type,
            dr_grandet: self.dr_grandet,
        }
    }
}

impl StoppedTask for Fight<Paused> {
    open spec fn spec_json(&self) -> Seq<char> {
        spec_fight_json(*self)
    }

    open spec fn spec_name(&self) -> Seq<char> {
        "Fight"@
    }

    open spec fn spec_id(&self) -> Option<usize> {
        self.id
    }

    fn to_json(&self) -> (r: String) {
        fight_to_json(self)
    }

    fn name(&self) -> (r: &'static str) {
        "Fight"
    }

    fn set_id(&mut self, id: usize) {
        self.id = Some(id);
    }

    fn id(&self) -> (r: Option<usize>) {
        self.id
    }
}

/// Setters of distinct Fight fields commute: configuring two independent
/// parameters in either order yields the same task, and therefore the same
/// serialized payload. (Each fluent setter returns exactly the input task
/// with its one field replaced, so the pairs shown here stand for any two
/// setters of different fields.)
pub proof fn lemma_fight_setters_commute(
    f: Fight<Paused>,
    stage: String,
    medicine: usize,
    stone: usize,
    times: usize,
    dr_grandet: bool,
)
    ensures
        (Fight { stone, ..(Fight { medicine, ..f }) }) == (Fight {
            medicine,
            ..(Fight { stone, ..f })
        }),
        spec_fight_json(Fight { stone, ..(Fight { medicine, ..f }) }) == spec_fight_json(
            Fight { medicine, ..(Fight { stone, ..f }) },
        ),
        (Fight { times, ..(Fight { dr_grandet, ..f }) }) == (Fight {
            dr_grandet,
            ..(Fight { times, ..f })
        }),
        spec_fight_json(Fight { times, ..(Fight { dr_grandet, ..f }) }) == spec_fight_json(
            Fight { dr_grandet, ..(Fight { times, ..f }) },
        ),
        (Fight { medicine, ..(Fight { stage: stage, ..f }) }) == (Fight {
            stage: stage,
            ..(Fight { medicine, ..f })
        }),
        spec_fight_json(Fight { medicine, ..(Fight { stage: stage, ..f }) }) == spec_fight_json(
            Fight { stage: stage, ..(Fight { medicine, ..f }) },
        ),
{
}

/// A freshly constructed Fight task with no optional fields set encodes
/// without the `stage`, `medicine`, `expiring_medicine`, `stone`, `times`
/// and `drop` keys: its payload holds exactly the four always-present
/// fields.
pub proof fn lemma_fresh_fight_encoding<T: State>(f: Fight<T>)
    requires
        f.stage@ == Seq::<char>::empty(),
        f.medicine == 0,
        f.expiring_medicine == 0,
        f.stone == 0,
        f.times == 0,
        f.drop@ == Seq::<(String, usize)>::empty(),
        !f.report_to_penguin,
        f.penguin_id@ == Seq::<char>::empty(),
        f.server@ == "CN"@,
        f.client_type@ == Seq::<char>::empty(),
        !f.dr_grandet,
    ensures
        spec_fight_json(f)
            == "{\"report_to_penguin\":false,\"server\":\"CN\",\"client_type\":\"\",\"DrGrandet\":false}"@,
{
    lemma_fresh_pieces();
    reveal_strlit("{");
    reveal_strlit("\"report_to_penguin\":");
    reveal_strlit("false");
    reveal_strlit(",\"server\":");
    reveal_strlit("\"CN\"");
    reveal_strlit(",\"client_type\":");
    reveal_strlit("\"\"");
    reveal_strlit(",\"DrGrandet\":");
    reveal_strlit("}");
    reveal_strlit(
        "{\"report_to_penguin\":false,\"server\":\"CN\",\"client_type\":\"\",\"DrGrandet\":false}",
    );
    assert(spec_fight_json(f)
        =~= "{\"report_to_penguin\":false,\"server\":\"CN\",\"client_type\":\"\",\"DrGrandet\":false}"@);
}

/// The literal fragments shared by the fresh-encoding facts.
proof fn lemma_fresh_pieces()
    ensures
        spec_json_str("CN"@) == "\"CN\""@,
        spec_json_str(Seq::<char>::empty()) == "\"\""@,
{
    reveal_strlit("CN");
    reveal_strlit("\"CN\"");
    reveal_strlit("\"\"");
    assert(spec_plain("CN"@));
    lemma_escape_plain("CN"@);
    assert(spec_json_str("CN"@) =~= "\"CN\""@);
    assert(spec_escape(Seq::<char>::empty()) =~= Seq::<char>::empty());
    assert(spec_json_str(Seq::<char>::empty()) =~= "\"\""@);
}

/// Setting `medicine` on an otherwise fresh Fight task puts exactly the
/// `medicine` key, with its decimal value, in front of the always-present
/// fields.
pub proof fn lemma_fight_medicine_encoding<T: State>(f: Fight<T>)
    requires
        f.stage@ == Seq::<char>::empty(),
        f.medicine != 0,
        f.expiring_medicine == 0,
        f.stone == 0,
        f.times == 0,
        f.drop@ == Seq::<(String, usize)>::empty(),
        !f.report_to_penguin,
        f.penguin_id@ == Seq::<char>::empty(),
        f.server@ == "CN"@,
        f.client_type@ == Seq::<char>::empty(),
        !f.dr_grandet,
    ensures
        spec_fight_json(f) == "{\"medicine\":"@ + spec_dec(f.medicine as nat)
            + ",\"report_to_penguin\":false,\"server\":\"CN\",\"client_type\":\"\",\"DrGrandet\":false}"@,
{
    lemma_fresh_pieces();
    reveal_strlit("{");
    reveal_strlit("\"medicine\":");
    reveal_strlit("{\"medicine\":");
    reveal_strlit(",");
    reveal_strlit("\"report_to_penguin\":");
    reveal_strlit("false");
    reveal_strlit(",\"server\":");
    reveal_strlit("\"CN\"");
    reveal_strlit(",\"client_type\":");
    reveal_strlit("\"\"");
    reveal_strlit(",\"DrGrandet\":");
    reveal_strlit("}");
    reveal_strlit(
        ",\"report_to_penguin\":false,\"server\":\"CN\",\"client_type\":\"\",\"DrGrandet\":false}",
    );
    assert(spec_fight_json(f) =~= "{\"medicine\":"@ + spec_dec(f.medicine as nat)
        + ",\"report_to_penguin\":false,\"server\":\"CN\",\"client_type\":\"\",\"DrGrandet\":false}"@);
}

/// Encodes a Fight task, in either state, as its JSON payload.
pub fn fight_to_json<T: State>(f: &Fight<T>) -> (r: String)
    ensures
        r@ == spec_fight_json(*f),
{
    let mut s: String = "{".to_owned();
    if !f.stage.as_str().is_empty() {
        s.append("\"stage\":");
        let p = json_str(f.stage.as_str());
        s.append(p.as_str());
        s.append(",");
    }
    if f.medicine != 0 {
        s.append("\"medicine\":");
        let p = dec_u64(f.medicine as u64);
        s.append(p.as_str());
        s.append(",");
    }
    if f.expiring_medicine != 0 {
        s.append("\"expiring_medicine\":");
        let p = dec_u64(f.expiring_medicine as u64);
        s.append(p.as_str());
        s.append(",");
    }
    if f.stone != 0 {
        s.append("\"stone\":");
        let p = dec_u64(f.stone as u64);
        s.append(p.as_str());
        s.append(",");
    }
    if f.times != 0 {
        s.append("\"times\":");
        let p = dec_u64(f.times as u64);
        s.append(p.as_str());
        s.append(",");
    }
    if f.drop.len() > 0 {
        s.append("\"drop\":");
        let p = json_num_obj(&f.drop);
        s.append(p.as_str());
        s.append(",");
    }
    s.append("\"report_to_penguin\":");
    s.append(if f.report_to_penguin { "true" } else { "false" });
    if !f.penguin_id.as_str().is_empty() {
        s.append(",\"penguin_id\":");
        let p = json_str(f.penguin_id.as_str());
        s.append(p.as_str());
    }
    s.append(",\"server\":");
    let p = json_str(f.server.as_str());
    s.append(p.as_str());
    s.append(",\"client_type\":");
    let p = json_str(f.client_type.as_str());
    s.append(p.as_str());
    s.append(",\"DrGrandet\":");
    s.append(if f.dr_grandet { "true" } else { "false" });
    s.append("}");
    s
}

} // verus!
