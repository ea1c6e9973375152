//! The Recruit task: run open recruitment.

use vstd::prelude::*;
use core::marker::PhantomData;
use crate::jsontext::{
    dec_u64, json_num_array, json_num_obj, json_str, spec_dec, spec_json_bool,
    spec_json_num_array, spec_json_num_obj, spec_json_str,
};
use crate::tasks::{spec_server_name, Paused, Running, Server, State, StoppedTask};

verus! {

/// A Recruit task. The recruitment time limits are kept per tag level
/// (three to six stars), in minutes.
pub struct Recruit<T: State> {
    pub _phantom: PhantomData<T>,
    pub id: Option<usize>,
    pub refresh: bool,
    pub select: Vec<usize>,
    pub confirm: Vec<usize>,
    pub times: usize,
    pub set_time: bool,
    pub expedite: bool,
    pub expedite_times: usize,
    pub skip_robot: bool,
    pub time_three: usize,
    pub time_four: usize,
    pub time_five: usize,
    pub time_six: usize,
    pub report_to_penguin: bool,
    pub penguin_id: String,
    pub report_to_yituliu: bool,
    pub yituliu_id: String,
    pub server: String,
}

/// The recruitment-time object: one entry per tag level, in level order.
pub open spec fn spec_recruit_times<T: State>(t: Recruit<T>) -> Seq<(Seq<char>, nat)> {
    seq![
        ("3"@, t.time_three as nat),
        ("4"@, t.time_four as nat),
        ("5"@, t.time_five as nat),
        ("6"@, t.time_six as nat),
    ]
}

/// The JSON encoding of a Recruit task: declaration order, optional fields
/// omitted while unset.
pub open spec fn spec_recruit_json<T: State>(t: Recruit<T>) -> Seq<char> {
    let s = "{"@;
    let s = s + "\"refresh\":"@ + spec_json_bool(t.refresh);
    let s = s + ",\"select\":"@ + spec_json_num_array(t.select@.map_values(|x: usize| x as nat));
    let s = s + ",\"confirm\":"@ + spec_json_num_array(t.confirm@.map_values(|x: usize| x as nat));
    let s = if t.times != 0 {
        s + ",\"times\":"@ + spec_dec(t.times as nat)
    } else {
        s
    };
    let s = s + ",\"set_time\":"@ + spec_json_bool(t.set_time);
    let s = s + ",\"expedite\":"@ + spec_json_bool(t.expedite);
    let s = if t.expedite_times != 0 {
        s + ",\"expedite_times\":"@ + spec_dec(t.expedite_times as nat)
    } else {
        s
    };
    let s = s + ",\"skip_robot\":"@ + spec_json_bool(t.skip_robot);
    let s = s + ",\"recruitment_time\":"@ + spec_json_num_obj(spec_recruit_times(t));
    let s = s + ",\"report_to_penguin\":"@ + spec_json_bool(t.report_to_penguin);
    let s = if t.penguin_id@.len() > 0 {
        s + ",\"penguin_id\":"@ + spec_json_str(t.penguin_id@)
    } else {
        s
    };
    let s = s + ",\"report_to_yituliu\":"@ + spec_json_bool(t.report_to_yituliu);
    let s = if t.yituliu_id@.len() > 0 {
        s + ",\"yituliu_id\":"@ + spec_json_str(t.yituliu_id@)
    } else {
        s
    };
    let s = s + ",\"server\":"@ + spec_json_str(t.server@);
    s + "}"@
}

impl<T: State> Recruit<T> {
    /// A fresh Recruit task: select three-to-five-star tags, confirm
    /// three-to-six-star tags, unlimited times off, time limit 09:00:00 for
    /// every level, robots skipped, no reporting, server `CN`.
    pub fn new() -> (r: Recruit<T>)
        ensures
            r.id is None,
            !r.refresh,
            r.select@.map_values(|x: usize| x as int) == seq![3int, 4int, 5int],
            r.confirm@.map_values(|x: usize| x as int) == seq![3int, 5int, 4int, 6int],
            r.times == 0,
            r.set_time,
            !r.expedite,
            r.expedite_times == 0,
            r.skip_robot,
            r.time_three == 540,
            r.time_four == 540,
            r.time_five == 540,
            r.time_six == 540,
            !r.report_to_penguin,
            r.penguin_id@ == Seq::<char>::empty(),
            !r.report_to_yituliu,
            r.yituliu_id@ == Seq::<char>::empty(),
            r.server@ == "CN"@,
    {
        let mut select: Vec<usize> = Vec::new();
        select.push(3);
        select.push(4);
        select.push(5);
        let mut confirm: Vec<usize> = Vec::new();
        confirm.push(3);
        confirm.push(5);
        confirm.push(4);
        confirm.push(6);
        proof {
            assert(select@.map_values(|x: usize| x as int) =~= seq![3int, 4int, 5int]);
            assert(confirm@.map_values(|x: usize| x as int) =~= seq![3int, 5int, 4int, 6int]);
        }
        Recruit {
            _phantom: PhantomData,
            id: None,
            refresh: false,
            select,
            confirm,
            times: 0,
            set_time: true,
            expedite: false,
            expedite_times: 0,
            skip_robot: true,
            time_three: 540,
            time_four: 540,
            time_five: 540,
            time_six: 540,
            report_to_penguin: false,
            penguin_id: String::new(),
            report_to_yituliu: false,
            yituliu_id: String::new(),
            server: "CN".to_owned(),
        }
    }
}

impl Recruit<Paused> {
    /// A fresh Recruit task in *Configurable* state.
    pub fn new_paused() -> (r: Recruit<Paused>)
        ensures
            r.id is None,
            !r.refresh,
            r.times == 0,
            r.set_time,
            !r.expedite,
            r.skip_robot,
            r.server@ == "CN"@,
    {
        Self::new()
    }

    /// Whether to refresh three-star tag sets.
    pub fn refresh(self, refresh: bool) -> (r: Recruit<Paused>)
        ensures
            r == (Recruit { refresh, ..self }),
    {
        Recruit { refresh, ..self }
    }

    /// The tag levels whose tags get clicked; empty for calculation only.
    pub fn select(self, select: Vec<usize>) -> (r: Recruit<Paused>)
        ensures
            r == (Recruit { select: r.select, ..self }),
            r.select == select,
    {
        Recruit { select, ..self }
    }

    /// The tag levels that get confirmed.
    pub fn confirm(self, confirm: Vec<usize>) -> (r: Recruit<Paused>)
        ensures
            r == (Recruit { confirm: r.confirm, ..self }),
            r.confirm == confirm,
    {
        Recruit { confirm, ..self }
    }

    /// How many times to recruit; zero for calculation only.
    pub fn times(self, times: usize) -> (r: Recruit<Paused>)
        ensures
            r == (Recruit { times, ..self }),
    {
        Recruit { times, ..self }
    }

    /// Whether to set the recruitment time limit; meaningful only while
    /// `times` is zero.
    pub fn set_time(self, set_time: bool) -> (r: Recruit<Paused>)
        ensures
            r == (Recruit { set_time, ..self }),
    {
        Recruit { set_time, ..self }
    }

    /// Use expedited permits, this many times.
    pub fn expedite(self, expedite_times: usize) -> (r: Recruit<Paused>)
        ensures
            r == (Recruit { expedite: true, expedite_times, ..self }),
    {
        Recruit { expedite: true, expedite_times, ..self }
    }

    /// Whether to skip a tag set that guarantees a robot.
    pub fn skip_robot(self, skip_robot: bool) -> (r: Recruit<Paused>)
        ensures
            r == (Recruit { skip_robot, ..self }),
    {
        Recruit { skip_robot, ..self }
    }

    /// The desired recruitment time limit per tag level, in minutes.
    pub fn recruitment_time(self, three: usize, four: usize, five: usize, six: usize) -> (r:
        Recruit<Paused>)
        ensures
            r == (Recruit {
                time_three: three,
                time_four: four,
                time_five: five,
                time_six: six,
                ..self
            }),
    {
        Recruit { time_three: three, time_four: four, time_five: five, time_six: six, ..self }
    }

    /// Report recruitment results under the given reporting id.
    pub fn report_to_penguin(self, penguin_id: String) -> (r: Recruit<Paused>)
        ensures
            r == (Recruit { report_to_penguin: true, penguin_id: r.penguin_id, ..self }),
            r.penguin_id == penguin_id,
    {
        Recruit { report_to_penguin: true, penguin_id, ..self }
    }

    /// Report recruitment results under the given statistics-site id.
    pub fn report_to_yituliu(self, yituliu_id: String) -> (r: Recruit<Paused>)
        ensures
            r == (Recruit { report_to_yituliu: true, yituliu_id: r.yituliu_id, ..self }),
            r.yituliu_id == yituliu_id,
    {
        Recruit { report_to_yituliu: true, yituliu_id, ..self }
    }

    /// The server recruitment runs against.
    pub fn server(self, server: Server) -> (r: Recruit<Paused>)
        ensures
            r == (Recruit { server: r.server, ..self }),
            r.server@ == spec_server_name(server),
    {
        Recruit { server: server.as_str().to_owned(), ..self }
    }

    /// Freezes the configuration: the one transition out of *Configurable*.
    pub fn start(self) -> (r: Recruit<Running>)
        ensures
            r.id == self.id,
            spec_recruit_json(r) == spec_recruit_json(self),
    {
        Recruit {
            _phantom: PhantomData,
            id: self.id,
            refresh: self.refresh,
            select: self.select,
            confirm: self.confirm,
            times: self.times,
            set_time: self.set_time,
            expedite: self.expedite,
            expedite_times: self.expedite_times,
            skip_robot: self.skip_robot,
            time_three: self.time_three,
            time_four: self.time_four,
            time_five: self.time_five,
            time_six: self.time_six,
            report_to_penguin: self.report_to_penguin,
            penguin_id: self.penguin_id,
            report_to_yituliu: self.report_to_yituliu,
            yituliu_id: self.yituliu_id,
            server: self.server,
        }
    }
}

impl StoppedTask for Recruit<Paused> {
    open spec fn spec_json(&self) -> Seq<char> {
        spec_recruit_json(*self)
    }

    open spec fn spec_name(&self) -> Seq<char> {
        "Recruit"@
    }

    open spec fn spec_id(&self) -> Option<usize> {
        self.id
    }

    fn to_json(&self) -> (r: String) {
        recruit_to_json(self)
    }

    fn name(&self) -> (r: &'static str) {
        "Recruit"
    }

    fn set_id(&mut self, id: usize) {
        self.id = Some(id);
    }

    fn id(&self) -> (r: Option<usize>) {
        self.id
    }
}

/// Encodes a Recruit task, in either state, as its JSON payload.
pub fn recruit_to_json<T: State>(t: &Recruit<T>) -> (r: String)
    ensures
        r@ == spec_recruit_json(*t),
{
    let mut s: String = "{".to_owned();
    s.append("\"refresh\":");
    s.append(if t.refresh { "true" } else { "false" });
    s.append(",\"select\":");
    let p = json_num_array(&t.select);
    s.append(p.as_str());
    s.append(",\"confirm\":");
    let p = json_num_array(&t.confirm);
    s.append(p.as_str());
    if t.times != 0 {
        s.append(",\"times\":");
        let p = dec_u64(t.times as u64);
        s.append(p.as_str());
    }
    s.append(",\"set_time\":");
    s.append(if t.set_time { "true" } else { "false" });
    s.append(",\"expedite\":");
    s.append(if t.expedite { "true" } else { "false" });
    if t.expedite_times != 0 {
        s.append(",\"expedite_times\":");
        let p = dec_u64(t.expedite_times as u64);
        s.append(p.as_str());
    }
    s.append(",\"skip_robot\":");
    s.append(if t.skip_robot { "true" } else { "false" });
    s.append(",\"recruitment_time\":");
    let mut times: Vec<(String, usize)> = Vec::new();
    times.push(("3".to_owned(), t.time_three));
    times.push(("4".to_owned(), t.time_four));
    times.push(("5".to_owned(), t.time_five));
    times.push(("6".to_owned(), t.time_six));
    proof {
        assert(times@.map_values(|e: (String, usize)| (e.0@, e.1 as nat)) =~= spec_recruit_times(
            *t,
        ));
    }
    let p = json_num_obj(&times);
    s.append(p.as_str());
    s.append(",\"report_to_penguin\":");
    s.append(if t.report_to_penguin { "true" } else { "false" });
    if !t.penguin_id.as_str().is_empty() {
        s.append(",\"penguin_id\":");
        let p = json_str(t.penguin_id.as_str());
        s.append(p.as_str());
    }
    s.append(",\"report_to_yituliu\":");
    s.append(if t.report_to_yituliu { "true" } else { "false" });
    if !t.yituliu_id.as_str().is_empty() {
        s.append(",\"yituliu_id\":");
        let p = json_str(t.yituliu_id.as_str());
        s.append(p.as_str());
    }
    s.append(",\"server\":");
    let p = json_str(t.server.as_str());
    s.append(p.as_str());
    s.append("}");
    s
}

} // verus!
