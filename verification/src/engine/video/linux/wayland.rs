//! The bookkeeping of the Wayland outputs that a video session draws on.
//!
//! The session's connection, surfaces and callbacks live with the caller;
//! this table holds what the session has learnt about each output, keyed by
//! the output's registry name, and applies the compositor's events to it.
use vstd::prelude::*;
use std::collections::HashMap;
use vstd::std_specs::iter::IteratorSpec;

verus! {

broadcast use vstd::std_specs::hash::group_hash_axioms;

/// What the session knows about one output.
pub struct OutputInfo {
    /// The connector name the compositor announced (empty until it does).
    pub name: String,
    pub width: u32,
    pub height: u32,
    /// The compositor has sent every property of the output.
    pub output_done: bool,
    /// The layer surface on this output has been configured.
    pub configured: bool,
    /// A frame callback was requested and has not fired yet.
    pub frame_callback_pending: bool,
}

pub struct OutputInfoView {
    pub name: Seq<char>,
    pub width: u32,
    pub height: u32,
    pub output_done: bool,
    pub configured: bool,
    pub frame_callback_pending: bool,
}

impl View for OutputInfo {
    type V = OutputInfoView;

    open spec fn view(&self) -> OutputInfoView {
        OutputInfoView {
            name: self.name@,
            width: self.width,
            height: self.height,
            output_done: self.output_done,
            configured: self.configured,
            frame_callback_pending: self.frame_callback_pending,
        }
    }
}

/// The outputs of a video session, by registry name.
pub struct OutputTable {
    outputs: HashMap<u32, OutputInfo>,
}

impl View for OutputTable {
    type V = Map<u32, OutputInfoView>;

    closed spec fn view(&self) -> Map<u32, OutputInfoView> {
        self.outputs@.map_values(|o: OutputInfo| o@)
    }
}

/// An output as first announced: no name, size 1×1, nothing received yet.
pub open spec fn fresh_output() -> OutputInfoView {
    OutputInfoView {
        name: seq![],
        width: 1,
        height: 1,
        output_done: false,
        configured: false,
        frame_callback_pending: false,
    }
}

/// `a` sorts before or equal to `b`, comparing characters by code point (the
/// order of `String`).
pub open spec fn name_le(a: Seq<char>, b: Seq<char>) -> bool
    decreases a.len(),
{
    if a.len() == 0 {
        true
    } else if b.len() == 0 {
        false
    } else if a[0] != b[0] {
        (a[0] as int) < (b[0] as int)
    } else {
        name_le(a.drop_first(), b.drop_first())
    }
}

/// Any two names are ordered one way or the other.
pub proof fn lemma_name_le_total(a: Seq<char>, b: Seq<char>)
    ensures
        name_le(a, b) || name_le(b, a),
    decreases a.len(),
{
    if a.len() > 0 && b.len() > 0 {
        if a[0] == b[0] {
            lemma_name_le_total(a.drop_first(), b.drop_first());
        } else {
            assert((a[0] as int) != (b[0] as int));
        }
    }
}

/// The order of names is transitive.
pub proof fn lemma_name_le_transitive(a: Seq<char>, b: Seq<char>, c: Seq<char>)
    requires
        name_le(a, b),
        name_le(b, c),
    ensures
        name_le(a, c),
    decreases a.len(),
{
    if a.len() > 0 && b.len() > 0 && c.len() > 0 && a[0] == b[0] && b[0] == c[0] {
        lemma_name_le_transitive(a.drop_first(), b.drop_first(), c.drop_first());
    }
}

/// Names are ordered lexicographically by code point, whatever their
/// lengths: where `a` and `b` first differ, at a position both have, the
/// one with the smaller character there sorts first.
pub proof fn lemma_name_le_first_difference(a: Seq<char>, b: Seq<char>, i: int)
    requires
        0 <= i < a.len(),
        i < b.len(),
        a.take(i) == b.take(i),
        a[i] != b[i],
    ensures
        name_le(a, b) <==> (a[i] as int) < (b[i] as int),
        name_le(b, a) <==> (b[i] as int) < (a[i] as int),
    decreases i,
{
    if i > 0 {
        assert(a[0] == a.take(i)[0]);
        assert(b[0] == b.take(i)[0]);
        assert(a.drop_first().take(i - 1) =~= b.drop_first().take(i - 1)) by {
            assert forall|j: int| 0 <= j < i - 1 implies a.drop_first()[j] == b.drop_first()[j] by {
                assert(a.take(i)[j + 1] == a[j + 1]);
                assert(b.take(i)[j + 1] == b[j + 1]);
                assert(a.take(i)[j + 1] == b.take(i)[j + 1]);
                assert(a.drop_first()[j] == a[j + 1]);
                assert(b.drop_first()[j] == b[j + 1]);
            }
        }
        lemma_name_le_first_difference(a.drop_first(), b.drop_first(), i - 1);
    }
}

/// A name sorts before or equal to every name it is the beginning of, and
/// strictly before every longer such name; in particular each name sorts
/// before or equal to itself.
pub proof fn lemma_name_le_prefix(a: Seq<char>, b: Seq<char>)
    requires
        a.len() <= b.len(),
        b.take(a.len() as int) == a,
    ensures
        name_le(a, b),
        a.len() < b.len() ==> !name_le(b, a),
    decreases a.len(),
{
    if a.len() > 0 {
        assert(a[0] == b.take(a.len() as int)[0]);
        assert(b.drop_first().take(a.drop_first().len() as int) =~= a.drop_first()) by {
            assert forall|j: int| 0 <= j < a.len() - 1 implies b.drop_first()[j]
                == a.drop_first()[j] by {
                assert(b.take(a.len() as int)[j + 1] == a[j + 1]);
            }
        }
        lemma_name_le_prefix(a.drop_first(), b.drop_first());
    }
}

fn name_le_exec(a: &str, b: &str) -> (r: bool)
    ensures
        r == name_le(a@, b@),
{
    let n = a.unicode_len();
    let m = b.unicode_len();
    let mut i: usize = 0;
    assert(a@.skip(0) == a@);
    assert(b@.skip(0) == b@);
    while i < n && i < m
        invariant
            n == a@.len(),
            m == b@.len(),
            i <= n,
            i <= m,
            name_le(a@, b@) == name_le(a@.skip(i as int), b@.skip(i as int)),
        decreases n - i,
    {
        let x = a.get_char(i);
        let y = b.get_char(i);
        if x != y {
            return (x as u32) < (y as u32);
        }
        assert(a@.skip(i as int).drop_first() == a@.skip(i + 1));
        assert(b@.skip(i as int).drop_first() == b@.skip(i + 1));
        i = i + 1;
    }
    i == n
}

/// `k` is the output a session mirrors to: an output whose properties are
/// all known and whose name sorts first among such outputs.
pub open spec fn is_primary(m: Map<u32, OutputInfoView>, k: u32) -> bool {
    &&& m.contains_key(k)
    &&& m[k].output_done
    &&& forall|j: u32| #[trigger] m.contains_key(j) && m[j].output_done ==> name_le(m[k].name, m[j].name)
}

/// Some output in `names` is known and not configured yet.
pub open spec fn any_unconfigured_in(m: Map<u32, OutputInfoView>, names: Seq<u32>) -> bool {
    exists|i: int| 0 <= i < names.len() && m.contains_key(names[i]) && !m[names[i]].configured
}

/// Every output with its frame callback no longer awaited; with `torn_down`,
/// also with its layer surface gone (not configured).
pub open spec fn settled(m: Map<u32, OutputInfoView>, torn_down: bool) -> Map<u32, OutputInfoView> {
    m.map_values(
        |o: OutputInfoView|
            OutputInfoView {
                frame_callback_pending: false,
                configured: if torn_down { false } else { o.configured },
                ..o
            },
    )
}

/// Some output still awaits its frame callback.
pub open spec fn any_pending(m: Map<u32, OutputInfoView>) -> bool {
    exists|k: u32| #[trigger] m.contains_key(k) && m[k].frame_callback_pending
}

impl OutputTable {
    /// An empty table.
    pub fn new() -> (r: Self)
        ensures
            r@ == Map::<u32, OutputInfoView>::empty(),
    {
        let r = OutputTable { outputs: HashMap::new() };
        assert(r@ =~= Map::<u32, OutputInfoView>::empty());
        r
    }

    fn keys(&self) -> (r: Vec<u32>)
        ensures
            r@.to_set() == self.outputs@.dom(),
            r@.no_duplicates(),
    {
        let ghost ks = vstd::std_specs::hash::spec_keys_iter(&self.outputs).remaining();
        let mut r: Vec<u32> = Vec::new();
        for k in it: self.outputs.keys()
            invariant
                it.seq() == ks,
                r@ == ks.unref().take(it.index()),
        {
            r.push(*k);
            assert(ks.unref().take(it.index() + 1) == ks.unref().take(it.index()).push(*k));
        }
        assert(r@ == ks.unref());
        r
    }

    /// Whether the output `name` is in the table.
    pub fn contains(&self, name: u32) -> (r: bool)
        ensures
            r == self@.contains_key(name),
    {
        self.outputs.contains_key(&name)
    }

    /// A new output was announced (a global `wl_output`): it is recorded
    /// afresh, replacing any earlier record under the same name.
    pub fn add_output(&mut self, name: u32)
        ensures
            final(self)@ == old(self)@.insert(name, fresh_output()),
    {
        let info = OutputInfo {
            name: String::new(),
            width: 1,
            height: 1,
            output_done: false,
            configured: false,
            frame_callback_pending: false,
        };
        self.outputs.insert(name, info);
        assert(self@ =~= old(self)@.insert(name, fresh_output()));
    }

    /// An output went away (its global was removed, or its layer surface
    /// was closed).
    pub fn remove_output(&mut self, name: u32)
        ensures
            final(self)@ == old(self)@.remove(name),
    {
        self.outputs.remove(&name);
        assert(self@ =~= old(self)@.remove(name));
    }

    /// The compositor told the output's connector name.
    pub fn set_name(&mut self, output: u32, name: String)
        ensures
            final(self)@ == if old(self)@.contains_key(output) {
                old(self)@.insert(output, OutputInfoView { name: name@, ..old(self)@[output] })
            } else {
                old(self)@
            },
    {
        if let Some(mut info) = self.outputs.remove(&output) {
            info.name = name;
            self.outputs.insert(output, info);
            assert(self@ =~= old(self)@.insert(
                output,
                OutputInfoView { name: name@, ..old(self)@[output] },
            ));
        } else {
            assert(self@ =~= old(self)@);
        }
    }

    /// The compositor told a mode of the output; only the current mode sets
    /// the size, with negative dimensions read as 0.
    pub fn set_mode(&mut self, output: u32, current: bool, width: i32, height: i32)
        ensures
            final(self)@ == if old(self)@.contains_key(output) && current {
                old(self)@.insert(
                    output,
                    OutputInfoView {
                        width: if width > 0 { width as u32 } else { 0 },
                        height: if height > 0 { height as u32 } else { 0 },
                        ..old(self)@[output]
                    },
                )
            } else {
                old(self)@
            },
    {
        if !current {
            return;
        }
        if let Some(mut info) = self.outputs.remove(&output) {
            info.width = if width > 0 { width as u32 } else { 0 };
            info.height = if height > 0 { height as u32 } else { 0 };
            self.outputs.insert(output, info);
            assert(self@ =~= old(self)@.insert(
                output,
                OutputInfoView {
                    width: if width > 0 { width as u32 } else { 0 },
                    height: if height > 0 { height as u32 } else { 0 },
                    ..old(self)@[output]
                },
            ));
        } else {
            assert(self@ =~= old(self)@);
        }
    }

    /// The compositor finished describing the output.
    pub fn mark_done(&mut self, output: u32)
        ensures
            final(self)@ == if old(self)@.contains_key(output) {
                old(self)@.insert(output, OutputInfoView { output_done: true, ..old(self)@[output] })
            } else {
                old(self)@
            },
    {
        if let Some(mut info) = self.outputs.remove(&output) {
            info.output_done = true;
            self.outputs.insert(output, info);
            assert(self@ =~= old(self)@.insert(
                output,
                OutputInfoView { output_done: true, ..old(self)@[output] },
            ));
        } else {
            assert(self@ =~= old(self)@);
        }
    }

    /// The layer surface on the output was configured; a size with both
    /// dimensions positive replaces the output's size.
    pub fn configure(&mut self, output: u32, width: u32, height: u32)
        ensures
            final(self)@ == if old(self)@.contains_key(output) {
                old(self)@.insert(
                    output,
                    OutputInfoView {
                        width: if width > 0 && height > 0 { width } else { old(self)@[output].width },
                        height: if width > 0 && height > 0 { height } else { old(self)@[output].height },
                        configured: true,
                        ..old(self)@[output]
                    },
                )
            } else {
                old(self)@
            },
    {
        if let Some(mut info) = self.outputs.remove(&output) {
            if width > 0 && height > 0 {
                info.width = width;
                info.height = height;
            }
            info.configured = true;
            self.outputs.insert(output, info);
            assert(self@ =~= old(self)@.insert(
                output,
                OutputInfoView {
                    width: if width > 0 && height > 0 { width } else { old(self)@[output].width },
                    height: if width > 0 && height > 0 { height } else { old(self)@[output].height },
                    configured: true,
                    ..old(self)@[output]
                },
            ));
        } else {
            assert(self@ =~= old(self)@);
        }
    }

    /// The frame callback of the output fired.
    pub fn frame_done(&mut self, output: u32)
        ensures
            final(self)@ == if old(self)@.contains_key(output) {
                old(self)@.insert(
                    output,
                    OutputInfoView { frame_callback_pending: false, ..old(self)@[output] },
                )
            } else {
                old(self)@
            },
    {
        if let Some(mut info) = self.outputs.remove(&output) {
            info.frame_callback_pending = false;
            self.outputs.insert(output, info);
            assert(self@ =~= old(self)@.insert(
                output,
                OutputInfoView { frame_callback_pending: false, ..old(self)@[output] },
            ));
        } else {
            assert(self@ =~= old(self)@);
        }
    }

    /// A frame callback is requested on the output before it is drawn;
    /// returns whether the output is known (drawing needs it).
    pub fn request_frame(&mut self, output: u32) -> (r: bool)
        ensures
            r == old(self)@.contains_key(output),
            final(self)@ == if r {
                old(self)@.insert(
                    output,
                    OutputInfoView { frame_callback_pending: true, ..old(self)@[output] },
                )
            } else {
                old(self)@
            },
    {
        if let Some(mut info) = self.outputs.remove(&output) {
            info.frame_callback_pending = true;
            self.outputs.insert(output, info);
            assert(self@ =~= old(self)@.insert(
                output,
                OutputInfoView { frame_callback_pending: true, ..old(self)@[output] },
            ));
            true
        } else {
            assert(self@ =~= old(self)@);
            false
        }
    }
}

impl OutputTable {
    fn settle(&mut self, torn_down: bool)
        ensures
            final(self)@ == settled(old(self)@, torn_down),
    {
        let keys = self.keys();
        let ghost start = self@;
        let mut i: usize = 0;
        while i < keys.len()
            invariant
                start == old(self)@,
                keys@.to_set() == self.outputs@.dom(),
                keys@.no_duplicates(),
                self@.dom() == start.dom(),
                i <= keys@.len(),
                forall|j: int|
                    0 <= j < i ==> self@[#[trigger] keys@[j]] == settled(start, torn_down)[keys@[j]],
                forall|k: u32|
                    #![trigger self@[k]]
                    self@.contains_key(k) && !keys@.take(i as int).contains(k) ==> self@[k] == start[k],
            decreases keys.len() - i,
        {
            let k = keys[i];
            proof {
                assert(keys@.to_set().contains(k));
                assert(!keys@.take(i as int).contains(k)) by {
                    if keys@.take(i as int).contains(k) {
                        let j = choose|j: int| 0 <= j < i && keys@.take(i as int)[j] == k;
                        assert(keys@[j] == keys@[i as int]);
                    }
                }
            }
            let ghost before = self@;
            assert(self.outputs@.contains_key(k));
            assert(before[k] == start[k]);
            if let Some(mut info) = self.outputs.remove(&k) {
                assert(info@ == before[k]);
                info.frame_callback_pending = false;
                if torn_down {
                    info.configured = false;
                }
                self.outputs.insert(k, info);
            }
            proof {
                assert(self@ =~= before.insert(k, settled(start, torn_down)[k]));
                assert forall|k2: u32|
                    #![trigger self@[k2]]
                    self@.contains_key(k2) && !keys@.take(i + 1).contains(k2) implies self@[k2] == start[k2] by {
                    assert(keys@.take(i + 1) == keys@.take(i as int).push(k));
                    assert(keys@.take(i + 1)[i as int] == k);
                    assert(k2 != k);
                    assert(!keys@.take(i as int).contains(k2));
                    assert(before.contains_key(k2));
                    assert(before[k2] == start[k2]);
                }
                assert forall|j: int| 0 <= j < i + 1 implies self@[#[trigger] keys@[j]] == settled(start, torn_down)[keys@[j]] by {
                    if j < i {
                        assert(keys@[j] != k);
                    }
                }
            }
            i = i + 1;
        }
        proof {
            assert forall|k: u32| #[trigger] self@.contains_key(k) implies self@[k] == settled(start, torn_down)[k] by {
                assert(keys@.to_set().contains(k));
                let j = choose|j: int| 0 <= j < keys@.len() && keys@[j] == k;
                assert(self@[keys@[j]] == settled(start, torn_down)[keys@[j]]);
            }
            assert(self@ =~= settled(start, torn_down));
        }
    }

    /// No frame callback is awaited any more (the wait for them was given up).
    pub fn cancel_pending_frame_callbacks(&mut self)
        ensures
            final(self)@ == settled(old(self)@, false),
    {
        self.settle(false);
    }

    /// The layer surfaces were destroyed: no output is configured and no
    /// frame callback is awaited.
    pub fn teardown_surfaces(&mut self)
        ensures
            final(self)@ == settled(old(self)@, true),
    {
        self.settle(true);
    }

    /// Whether some output still awaits its frame callback.
    pub fn frame_callbacks_pending(&self) -> (r: bool)
        ensures
            r == any_pending(self@),
    {
        let keys = self.keys();
        let mut i: usize = 0;
        while i < keys.len()
            invariant
                keys@.to_set() == self.outputs@.dom(),
                i <= keys@.len(),
                forall|j: int| 0 <= j < i ==> !self@[#[trigger] keys@[j]].frame_callback_pending,
            decreases keys.len() - i,
        {
            let k = keys[i];
            assert(keys@.to_set().contains(k));
            match self.outputs.get(&k) {
                Some(info) => {
                    if info.frame_callback_pending {
                        assert(self@.contains_key(k) && self@[k].frame_callback_pending);
                        return true;
                    }
                },
                None => {},
            }
            i = i + 1;
        }
        assert forall|k: u32| #[trigger] self@.contains_key(k) implies !self@[k].frame_callback_pending by {
            assert(keys@.to_set().contains(k));
            let j = choose|j: int| 0 <= j < keys@.len() && keys@[j] == k;
            assert(!self@[keys@[j]].frame_callback_pending);
        }
        false
    }

    /// The output to mirror the video to: among the outputs whose properties
    /// are all known, one whose name sorts first; `None` when there is none.
    pub fn primary_output(&self) -> (r: Option<u32>)
        ensures
            match r {
                Some(k) => is_primary(self@, k),
                None => forall|k: u32| #[trigger] self@.contains_key(k) ==> !self@[k].output_done,
            },
    {
        let keys = self.keys();
        let mut best: Option<u32> = None;
        let mut i: usize = 0;
        while i < keys.len()
            invariant
                keys@.to_set() == self.outputs@.dom(),
                i <= keys@.len(),
                match best {
                    Some(b) => {
                        &&& self@.contains_key(b)
                        &&& self@[b].output_done
                        &&& forall|j: int|
                            0 <= j < i && self@[#[trigger] keys@[j]].output_done ==> name_le(
                                self@[b].name,
                                self@[keys@[j]].name,
                            )
                    },
                    None => forall|j: int| 0 <= j < i ==> !self@[#[trigger] keys@[j]].output_done,
                },
            decreases keys.len() - i,
        {
            let k = keys[i];
            assert(keys@.to_set().contains(k));
            if let Some(info) = self.outputs.get(&k) {
                if info.output_done {
                    match best {
                        None => {
                            best = Some(k);
                            proof {
                                lemma_name_le_total(self@[k].name, self@[k].name);
                            }
                        },
                        Some(b) => {
                            if let Some(cur) = self.outputs.get(&b) {
                                if !name_le_exec(cur.name.as_str(), info.name.as_str()) {
                                    proof {
                                        lemma_name_le_total(self@[b].name, self@[k].name);
                                        assert forall|j: int|
                                            0 <= j < i + 1 && self@[#[trigger] keys@[j]].output_done implies name_le(
                                            self@[k].name,
                                            self@[keys@[j]].name,
                                        ) by {
                                            if j < i {
                                                lemma_name_le_transitive(
                                                    self@[k].name,
                                                    self@[b].name,
                                                    self@[keys@[j]].name,
                                                );
                                            } else {
                                                lemma_name_le_total(self@[k].name, self@[k].name);
                                            }
                                        }
                                    }
                                    best = Some(k);
                                }
                            }
                        },
                    }
                }
            }
            i = i + 1;
        }
        proof {
            match best {
                Some(b) => {
                    assert forall|k: u32| #[trigger] self@.contains_key(k) && self@[k].output_done implies name_le(
                        self@[b].name,
                        self@[k].name,
                    ) by {
                        assert(keys@.to_set().contains(k));
                        let j = choose|j: int| 0 <= j < keys@.len() && keys@[j] == k;
                        assert(self@[keys@[j]].output_done);
                    }
                },
                None => {
                    assert forall|k: u32| #[trigger] self@.contains_key(k) implies !self@[k].output_done by {
                        assert(keys@.to_set().contains(k));
                        let j = choose|j: int| 0 <= j < keys@.len() && keys@[j] == k;
                        assert(!self@[keys@[j]].output_done);
                    }
                },
            }
        }
        best
    }

    /// The size to draw the output at: its size with each dimension at
    /// least 1; `None` for an unknown output.
    pub fn surface_size(&self, output: u32) -> (r: Option<(u32, u32)>)
        ensures
            match r {
                Some((w, h)) => self@.contains_key(output) && w == (if self@[output].width > 1 {
                    self@[output].width
                } else {
                    1
                }) && h == (if self@[output].height > 1 {
                    self@[output].height
                } else {
                    1
                }),
                None => !self@.contains_key(output),
            },
    {
        match self.outputs.get(&output) {
            Some(info) => {
                let w = if info.width > 1 { info.width } else { 1 };
                let h = if info.height > 1 { info.height } else { 1 };
                Some((w, h))
            },
            None => None,
        }
    }

    /// Keeps in `names` only the outputs still known, and says whether one
    /// of them is not configured yet.
    pub fn any_unconfigured(&self, names: &mut Vec<u32>) -> (r: bool)
        ensures
            final(names)@ == old(names)@.filter(|n: u32| self@.contains_key(n)),
            r == any_unconfigured_in(self@, final(names)@),
    {
        let ghost pred = |n: u32| self@.contains_key(n);
        let ghost start = names@;
        let mut kept: Vec<u32> = Vec::new();
        let mut found = false;
        let mut i: usize = 0;
        while i < names.len()
            invariant
                names@ == start,
                start == old(names)@,
                pred == (|n: u32| self@.contains_key(n)),
                i <= start.len(),
                kept@ == start.take(i as int).filter(pred),
                found == any_unconfigured_in(self@, kept@),
            decreases names.len() - i,
        {
            let n = names[i];
            proof {
                assert(start.take(i + 1) == start.take(i as int).push(n));
                start.take(i as int).lemma_filter_push(n, pred);
            }
            if let Some(info) = self.outputs.get(&n) {
                let ghost before = kept@;
                kept.push(n);
                if !info.configured {
                    found = true;
                    assert(kept@[kept@.len() - 1] == n);
                }
                proof {
                    if found {
                        if !info.configured {
                            assert(any_unconfigured_in(self@, kept@));
                        } else {
                            let w = choose|w: int| 0 <= w < before.len() && self@.contains_key(before[w]) && !self@[before[w]].configured;
                            assert(kept@[w] == before[w]);
                        }
                    } else {
                        assert forall|w: int| 0 <= w < kept@.len() implies !(self@.contains_key(kept@[w]) && !self@[kept@[w]].configured) by {
                            if w < before.len() {
                                assert(kept@[w] == before[w]);
                            }
                        }
                    }
                }
            }
            i = i + 1;
        }
        assert(start.take(start.len() as int) == start);
        *names = kept;
        found
    }
}

/// Two names that sort before or equal to each other are the same name.
pub proof fn lemma_name_le_antisymmetric(a: Seq<char>, b: Seq<char>)
    requires
        name_le(a, b),
        name_le(b, a),
    ensures
        a == b,
    decreases a.len(),
{
    if a.len() > 0 && b.len() > 0 {
        lemma_name_le_antisymmetric(a.drop_first(), b.drop_first());
        assert(a == seq![a[0]] + a.drop_first());
        assert(b == seq![b[0]] + b.drop_first());
    }
}

/// Any two outputs that qualify as primary carry the same name: which one
/// is mirrored to is determined by the names up to outputs with equal names.
pub proof fn lemma_primary_name_unique(m: Map<u32, OutputInfoView>, a: u32, b: u32)
    requires
        is_primary(m, a),
        is_primary(m, b),
    ensures
        m[a].name == m[b].name,
{
    assert(m.contains_key(b) && m[b].output_done);
    assert(m.contains_key(a) && m[a].output_done);
    lemma_name_le_antisymmetric(m[a].name, m[b].name);
}

/// Settling the frame callbacks, or tearing the surfaces down, keeps every
/// output and leaves no frame callback awaited.
pub proof fn lemma_settled_awaits_nothing(m: Map<u32, OutputInfoView>, torn_down: bool)
    ensures
        settled(m, torn_down).dom() == m.dom(),
        !any_pending(settled(m, torn_down)),
{
    assert(settled(m, torn_down).dom() =~= m.dom());
}

/// After the surfaces are torn down, every known output among `names` is
/// waiting for a configure again.
pub proof fn lemma_teardown_unconfigures(m: Map<u32, OutputInfoView>, names: Seq<u32>)
    ensures
        any_unconfigured_in(settled(m, true), names) <==> exists|i: int|
            0 <= i < names.len() && #[trigger] m.contains_key(names[i]),
{
    if exists|i: int| 0 <= i < names.len() && #[trigger] m.contains_key(names[i]) {
        let i = choose|i: int| 0 <= i < names.len() && #[trigger] m.contains_key(names[i]);
        assert(settled(m, true).contains_key(names[i]));
    }
}

} // verus!
