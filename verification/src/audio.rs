//! The Mic+System combined source: a PulseAudio/PipeWire null sink fed by
//! the default microphone and by the default sink's monitor, recorded through
//! its own monitor. Setting it up loads three `pactl` modules in order; the
//! program that runs `pactl` asks this plan for the next module to load,
//! reports the id each load returns, and on teardown (or a failed step)
//! unloads what was loaded, newest first, so the user's routing comes back.

use vstd::prelude::*;
use crate::transcode::texts;
use crate::numeral::{parse_trimmed_u32, parse_u32_spec, trim_spec};

verus! {

/// Name of the virtual sink that mixes mic and system audio.
pub const SINK_NAME: &'static str = "lanner_mix";

/// `a` followed by `b`.
pub fn joined(a: &str, b: &str) -> (r: String)
    ensures
        r@ == a@ + b@,
{
    let mut s = String::from_str(a);
    s.append(b);
    s
}

/// The monitor source of a sink: its name with `.monitor` appended.
pub fn monitor_of(sink: &str) -> (r: String)
    ensures
        r@ == sink@ + ".monitor"@,
        r@ == sink@ + seq!['.', 'm', 'o', 'n', 'i', 't', 'o', 'r'],
{
    proof { reveal_strlit(".monitor"); }
    joined(sink, ".monitor")
}

/// The id of a loaded module, read from what `pactl load-module` printed:
/// the output, without surrounding white space, as a `u32`.
pub fn module_id(stdout: &str) -> (r: Option<u32>)
    ensures
        r == parse_u32_spec(trim_spec(stdout@)),
{
    parse_trimmed_u32(stdout)
}

/// The `pactl` arguments of the three loads, in order: the null sink, the
/// microphone loopback into it, and the system-audio loopback into it.
pub open spec fn load_plan(default_sink: Seq<char>, mic: Seq<char>) -> Seq<Seq<Seq<char>>> {
    seq![
        seq![
            "load-module"@,
            "module-null-sink"@,
            "sink_name="@ + SINK_NAME@,
            "sink_properties=device.description="@ + SINK_NAME@,
        ],
        seq!["load-module"@, "module-loopback"@, "source="@ + mic, "sink="@ + SINK_NAME@],
        seq![
            "load-module"@,
            "module-loopback"@,
            "source="@ + default_sink + ".monitor"@,
            "sink="@ + SINK_NAME@,
        ],
    ]
}

/// The modules backing a combined Mic+System source, loaded so far, and the
/// loads still to make.
pub struct CombinedSource {
    modules: Vec<u32>,
    steps: Vec<Vec<String>>,
}

impl CombinedSource {
    #[verifier::type_invariant]
    spec fn wf(self) -> bool {
        &&& self.steps@.len() == 3
        &&& self.modules@.len() <= 3
    }

    /// The ids of the modules loaded so far, oldest first.
    pub closed spec fn loaded(self) -> Seq<u32> {
        self.modules@
    }

    /// The `pactl` arguments of each of the three loads.
    pub closed spec fn plan(self) -> Seq<Seq<Seq<char>>> {
        self.steps@.map_values(|v: Vec<String>| texts(v@))
    }

    /// The plan for a source mixing `mic` (the default source) and
    /// `<default_sink>.monitor` (system audio) into the null sink; nothing is
    /// loaded yet.
    pub fn new(default_sink: &str, mic: &str) -> (r: Self)
        ensures
            r.loaded() == Seq::<u32>::empty(),
            r.plan() == load_plan(default_sink@, mic@),
            r.plan().len() == 3,
            r.plan()[0] == seq![
                seq!['l', 'o', 'a', 'd', '-', 'm', 'o', 'd', 'u', 'l', 'e'],
                seq!['m', 'o', 'd', 'u', 'l', 'e', '-', 'n', 'u', 'l', 'l', '-', 's', 'i', 'n', 'k'],
                seq!['s', 'i', 'n', 'k', '_', 'n', 'a', 'm', 'e', '=', 'l', 'a', 'n', 'n', 'e', 'r', '_', 'm', 'i', 'x'],
                seq!['s', 'i', 'n', 'k', '_', 'p', 'r', 'o', 'p', 'e', 'r', 't', 'i', 'e', 's', '=', 'd', 'e', 'v', 'i', 'c', 'e', '.', 'd', 'e', 's', 'c', 'r', 'i', 'p', 't', 'i', 'o', 'n', '=', 'l', 'a', 'n', 'n', 'e', 'r', '_', 'm', 'i', 'x'],
            ],
            r.plan()[1] == seq![
                seq!['l', 'o', 'a', 'd', '-', 'm', 'o', 'd', 'u', 'l', 'e'],
                seq!['m', 'o', 'd', 'u', 'l', 'e', '-', 'l', 'o', 'o', 'p', 'b', 'a', 'c', 'k'],
                seq!['s', 'o', 'u', 'r', 'c', 'e', '='] + mic@,
                seq!['s', 'i', 'n', 'k', '=', 'l', 'a', 'n', 'n', 'e', 'r', '_', 'm', 'i', 'x'],
            ],
            r.plan()[2] == seq![
                seq!['l', 'o', 'a', 'd', '-', 'm', 'o', 'd', 'u', 'l', 'e'],
                seq!['m', 'o', 'd', 'u', 'l', 'e', '-', 'l', 'o', 'o', 'p', 'b', 'a', 'c', 'k'],
                seq!['s', 'o', 'u', 'r', 'c', 'e', '='] + default_sink@ + seq!['.', 'm', 'o', 'n', 'i', 't', 'o', 'r'],
                seq!['s', 'i', 'n', 'k', '=', 'l', 'a', 'n', 'n', 'e', 'r', '_', 'm', 'i', 'x'],
            ],
    {
        let mut s0: Vec<String> = Vec::new();
        s0.push(String::from_str("load-module"));
        s0.push(String::from_str("module-null-sink"));
        s0.push(joined("sink_name=", SINK_NAME));
        s0.push(joined("sink_properties=device.description=", SINK_NAME));
        let mut s1: Vec<String> = Vec::new();
        s1.push(String::from_str("load-module"));
        s1.push(String::from_str("module-loopback"));
        s1.push(joined("source=", mic));
        s1.push(joined("sink=", SINK_NAME));
        let mut s2: Vec<String> = Vec::new();
        s2.push(String::from_str("load-module"));
        s2.push(String::from_str("module-loopback"));
        let sink_monitor = monitor_of(default_sink);
        let source = joined("source=", sink_monitor.as_str());
        assert(source@ =~= "source="@ + default_sink@ + ".monitor"@);
        s2.push(source);
        s2.push(joined("sink=", SINK_NAME));
        let mut steps: Vec<Vec<String>> = Vec::new();
        steps.push(s0);
        steps.push(s1);
        steps.push(s2);
        let r = CombinedSource { modules: Vec::new(), steps };
        let ghost plan = load_plan(default_sink@, mic@);
        assert(texts(r.steps@[0]@) =~= plan[0]);
        assert(texts(r.steps@[1]@) =~= plan[1]);
        assert(texts(r.steps@[2]@) =~= plan[2]);
        assert(r.plan() =~= load_plan(default_sink@, mic@));
        proof { lemma_load_plan_text(default_sink@, mic@); }
        r
    }

    /// Whether all three modules are loaded.
    pub fn is_complete(&self) -> (r: bool)
        ensures
            r <==> self.loaded().len() == 3,
    {
        proof { use_type_invariant(self); }
        self.modules.len() == 3
    }

    /// The `pactl` arguments of the next module to load, or `None` once all
    /// three are loaded.
    pub fn next_load(&self) -> (r: Option<Vec<String>>)
        ensures
            self.loaded().len() <= 3,
            r is None <==> self.loaded().len() == 3,
            r matches Some(a) ==> texts(a@) == self.plan()[self.loaded().len() as int],
    {
        proof { use_type_invariant(self); }
        let n = self.modules.len();
        if n < 3 {
            let step = &self.steps[n];
            let mut out: Vec<String> = Vec::new();
            let mut i: usize = 0;
            while i < step.len()
                invariant
                    0 <= i <= step@.len(),
                    texts(out@) == texts(step@).subrange(0, i as int),
                decreases step@.len() - i,
            {
                let ghost before = out@;
                out.push(step[i].clone());
                assert(texts(out@) =~= texts(before).push(step@[i as int]@));
                assert(texts(out@) =~= texts(step@).subrange(0, i + 1));
                i = i + 1;
            }
            assert(texts(out@) =~= texts(step@));
            Some(out)
        } else {
            None
        }
    }

    /// Records that the next module loaded with id `id`.
    pub fn record_loaded(&mut self, id: u32)
        requires
            old(self).loaded().len() < 3,
        ensures
            final(self).loaded() == old(self).loaded().push(id),
            final(self).plan() == old(self).plan(),
    {
        proof { use_type_invariant(&*self); }
        let mut modules = self.modules.clone();
        modules.push(id);
        self.modules = modules;
    }

    /// The device to hand to the recorder: the mixing sink's monitor.
    pub fn device(&self) -> (r: String)
        ensures
            r@ == SINK_NAME@ + ".monitor"@,
            r@ == seq!['l', 'a', 'n', 'n', 'e', 'r', '_', 'm', 'i', 'x', '.', 'm', 'o', 'n', 'i', 't', 'o', 'r'],
    {
        proof {
            reveal_strlit("lanner_mix");
            reveal_strlit(".monitor");
            assert(SINK_NAME@ + ".monitor"@ =~= seq!['l', 'a', 'n', 'n', 'e', 'r', '_', 'm', 'i', 'x', '.', 'm', 'o', 'n', 'i', 't', 'o', 'r']);
        }
        monitor_of(SINK_NAME)
    }

    /// The module ids to unload, newest first: the loopbacks go before the
    /// sink they feed.
    pub fn unload_order(&self) -> (r: Vec<u32>)
        ensures
            r@ == self.loaded().reverse(),
    {
        let mut out: Vec<u32> = Vec::new();
        let mut i: usize = self.modules.len();
        while i > 0
            invariant
                i <= self.modules@.len(),
                out@ == self.modules@.subrange(i as int, self.modules@.len() as int).reverse(),
            decreases i,
        {
            i = i - 1;
            out.push(self.modules[i]);
            assert(out@ =~= self.modules@.subrange(i as int, self.modules@.len() as int).reverse());
        }
        assert(self.modules@.subrange(0, self.modules@.len() as int) =~= self.modules@);
        out
    }
}

/// The three `pactl` loads, character by character: a null sink named
/// `lanner_mix`, a loopback from the microphone into it, and a loopback from
/// the default sink's monitor into it.
pub proof fn lemma_load_plan_text(default_sink: Seq<char>, mic: Seq<char>)
    ensures
        load_plan(default_sink, mic).len() == 3,
        load_plan(default_sink, mic)[0] == seq![
            seq!['l', 'o', 'a', 'd', '-', 'm', 'o', 'd', 'u', 'l', 'e'],
            seq!['m', 'o', 'd', 'u', 'l', 'e', '-', 'n', 'u', 'l', 'l', '-', 's', 'i', 'n', 'k'],
            seq!['s', 'i', 'n', 'k', '_', 'n', 'a', 'm', 'e', '=', 'l', 'a', 'n', 'n', 'e', 'r', '_', 'm', 'i', 'x'],
            seq!['s', 'i', 'n', 'k', '_', 'p', 'r', 'o', 'p', 'e', 'r', 't', 'i', 'e', 's', '=', 'd', 'e', 'v', 'i', 'c', 'e', '.', 'd', 'e', 's', 'c', 'r', 'i', 'p', 't', 'i', 'o', 'n', '=', 'l', 'a', 'n', 'n', 'e', 'r', '_', 'm', 'i', 'x'],
        ],
        load_plan(default_sink, mic)[1] == seq![
            seq!['l', 'o', 'a', 'd', '-', 'm', 'o', 'd', 'u', 'l', 'e'],
            seq!['m', 'o', 'd', 'u', 'l', 'e', '-', 'l', 'o', 'o', 'p', 'b', 'a', 'c', 'k'],
            seq!['s', 'o', 'u', 'r', 'c', 'e', '='] + mic,
            seq!['s', 'i', 'n', 'k', '=', 'l', 'a', 'n', 'n', 'e', 'r', '_', 'm', 'i', 'x'],
        ],
        load_plan(default_sink, mic)[2] == seq![
            seq!['l', 'o', 'a', 'd', '-', 'm', 'o', 'd', 'u', 'l', 'e'],
            seq!['m', 'o', 'd', 'u', 'l', 'e', '-', 'l', 'o', 'o', 'p', 'b', 'a', 'c', 'k'],
            seq!['s', 'o', 'u', 'r', 'c', 'e', '='] + default_sink + seq!['.', 'm', 'o', 'n', 'i', 't', 'o', 'r'],
            seq!['s', 'i', 'n', 'k', '=', 'l', 'a', 'n', 'n', 'e', 'r', '_', 'm', 'i', 'x'],
        ],
{
    reveal_strlit("load-module");
    assert("load-module"@ =~= seq!['l', 'o', 'a', 'd', '-', 'm', 'o', 'd', 'u', 'l', 'e']);
    reveal_strlit("module-null-sink");
    assert("module-null-sink"@ =~= seq!['m', 'o', 'd', 'u', 'l', 'e', '-', 'n', 'u', 'l', 'l', '-', 's', 'i', 'n', 'k']);
    reveal_strlit("sink_name=");
    assert("sink_name="@ =~= seq!['s', 'i', 'n', 'k', '_', 'n', 'a', 'm', 'e', '=']);
    reveal_strlit("sink_properties=device.description=");
    assert("sink_properties=device.description="@ =~= seq!['s', 'i', 'n', 'k', '_', 'p', 'r', 'o', 'p', 'e', 'r', 't', 'i', 'e', 's', '=', 'd', 'e', 'v', 'i', 'c', 'e', '.', 'd', 'e', 's', 'c', 'r', 'i', 'p', 't', 'i', 'o', 'n', '=']);
    reveal_strlit("module-loopback");
    assert("module-loopback"@ =~= seq!['m', 'o', 'd', 'u', 'l', 'e', '-', 'l', 'o', 'o', 'p', 'b', 'a', 'c', 'k']);
    reveal_strlit("source=");
    assert("source="@ =~= seq!['s', 'o', 'u', 'r', 'c', 'e', '=']);
    reveal_strlit("sink=");
    assert("sink="@ =~= seq!['s', 'i', 'n', 'k', '=']);
    reveal_strlit(".monitor");
    assert(".monitor"@ =~= seq!['.', 'm', 'o', 'n', 'i', 't', 'o', 'r']);
    reveal_strlit("lanner_mix");
    assert("lanner_mix"@ =~= seq!['l', 'a', 'n', 'n', 'e', 'r', '_', 'm', 'i', 'x']);
    assert(SINK_NAME@ == "lanner_mix"@);
    assert("sink_name="@ + SINK_NAME@ =~= seq!['s', 'i', 'n', 'k', '_', 'n', 'a', 'm', 'e', '=', 'l', 'a', 'n', 'n', 'e', 'r', '_', 'm', 'i', 'x']);
    assert("sink_properties=device.description="@ + SINK_NAME@ =~= seq!['s', 'i', 'n', 'k', '_', 'p', 'r', 'o', 'p', 'e', 'r', 't', 'i', 'e', 's', '=', 'd', 'e', 'v', 'i', 'c', 'e', '.', 'd', 'e', 's', 'c', 'r', 'i', 'p', 't', 'i', 'o', 'n', '=', 'l', 'a', 'n', 'n', 'e', 'r', '_', 'm', 'i', 'x']);
    assert("sink="@ + SINK_NAME@ =~= seq!['s', 'i', 'n', 'k', '=', 'l', 'a', 'n', 'n', 'e', 'r', '_', 'm', 'i', 'x']);
    assert(load_plan(default_sink, mic)[0] =~= seq![
        seq!['l', 'o', 'a', 'd', '-', 'm', 'o', 'd', 'u', 'l', 'e'],
        seq!['m', 'o', 'd', 'u', 'l', 'e', '-', 'n', 'u', 'l', 'l', '-', 's', 'i', 'n', 'k'],
        seq!['s', 'i', 'n', 'k', '_', 'n', 'a', 'm', 'e', '=', 'l', 'a', 'n', 'n', 'e', 'r', '_', 'm', 'i', 'x'],
        seq!['s', 'i', 'n', 'k', '_', 'p', 'r', 'o', 'p', 'e', 'r', 't', 'i', 'e', 's', '=', 'd', 'e', 'v', 'i', 'c', 'e', '.', 'd', 'e', 's', 'c', 'r', 'i', 'p', 't', 'i', 'o', 'n', '=', 'l', 'a', 'n', 'n', 'e', 'r', '_', 'm', 'i', 'x'],
    ]);
    assert(load_plan(default_sink, mic)[1] =~= seq![
        seq!['l', 'o', 'a', 'd', '-', 'm', 'o', 'd', 'u', 'l', 'e'],
        seq!['m', 'o', 'd', 'u', 'l', 'e', '-', 'l', 'o', 'o', 'p', 'b', 'a', 'c', 'k'],
        seq!['s', 'o', 'u', 'r', 'c', 'e', '='] + mic,
        seq!['s', 'i', 'n', 'k', '=', 'l', 'a', 'n', 'n', 'e', 'r', '_', 'm', 'i', 'x'],
    ]);
    assert(load_plan(default_sink, mic)[2] =~= seq![
        seq!['l', 'o', 'a', 'd', '-', 'm', 'o', 'd', 'u', 'l', 'e'],
        seq!['m', 'o', 'd', 'u', 'l', 'e', '-', 'l', 'o', 'o', 'p', 'b', 'a', 'c', 'k'],
        seq!['s', 'o', 'u', 'r', 'c', 'e', '='] + default_sink + seq!['.', 'm', 'o', 'n', 'i', 't', 'o', 'r'],
        seq!['s', 'i', 'n', 'k', '=', 'l', 'a', 'n', 'n', 'e', 'r', '_', 'm', 'i', 'x'],
    ]);
}

/// Loading all three modules and tearing the source down unloads them in
/// the reverse order: the null sink, loaded first, is unloaded last, after
/// both loopbacks that feed it. Teardown after a failed step unloads just
/// the modules loaded so far, newest first.
pub proof fn lemma_teardown_reverses_setup(src: CombinedSource, a: u32, b: u32, c: u32)
    requires
        src.loaded() == seq![a, b, c],
    ensures
        src.loaded().reverse() == seq![c, b, a],
        src.loaded().subrange(0, 1).reverse() == seq![a],
        src.loaded().subrange(0, 2).reverse() == seq![b, a],
{
    assert(src.loaded().reverse() =~= seq![c, b, a]);
    assert(src.loaded().subrange(0, 1).reverse() =~= seq![a]);
    assert(src.loaded().subrange(0, 2).reverse() =~= seq![b, a]);
}

} // verus!
