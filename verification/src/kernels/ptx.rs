//! Compilation of CUDA C++ to PTX, memoized on the source.
//!
//! PTX is determined by the source and the compile options, and the only
//! option in use is [`TARGET_ARCH`]. The diagnostic name plays no part in it,
//! so two calls that differ by name alone share one entry. Failures are not
//! kept: the diagnostics are the value of a failure, and a later call asks for
//! them again.

use vstd::arithmetic::div_mod::lemma_add_mod_noop;
use vstd::arithmetic::div_mod::lemma_small_mod;
use vstd::prelude::*;
use vstd::string::StringExecFns;

verus! {

/// The only architecture the kernels target.
pub const TARGET_ARCH: &'static str = "compute_75";

/// Whether the UTF-8 encoding of a text holds a NUL byte, which no C string
/// can carry.
pub open spec fn holds_nul(text: Seq<char>) -> bool {
    vstd::utf8::encode_utf8(text).contains(0u8)
}

/// The answers `cudarc::nvrtc::compile_ptx_with_opts` may give for a source, an
/// architecture and a diagnostic name: `text` is PTX where `compiled` holds,
/// and the debug form of the error where it does not.
///
/// One source may have many answers: they differ with the NVRTC library that
/// answers, so this relates a call to its answers and equates no two of them.
pub uninterp spec fn nvrtc_may_answer(
    src: Seq<char>,
    arch: Seq<char>,
    name: Seq<char>,
    compiled: bool,
    text: Seq<char>,
) -> bool;

/// `answer` is one that NVRTC may give for a source under a name, on the
/// architecture the kernels target.
pub open spec fn may_answer(
    src: Seq<char>,
    name: Seq<char>,
    answer: Result<String, String>,
) -> bool {
    match answer {
        Ok(ptx) => nvrtc_may_answer(src, TARGET_ARCH@, name, true, ptx@),
        Err(e) => nvrtc_may_answer(src, TARGET_ARCH@, name, false, e@),
    }
}

/// `cudarc::nvrtc::compile_ptx_with_opts`, for one architecture and one
/// diagnostic name, with every other option at its default; the PTX comes back
/// as text (`Ptx::to_src`), an error as its debug form.
///
/// The source, the name and the option that carries the architecture become C
/// strings, and the call panics on an embedded NUL, so `requires` leaves those
/// out. What comes back depends on the NVRTC library
/// the machine loads, so the contract says which call was answered and nothing
/// of what the answer holds; where no such library can be loaded the call does
/// not return. `Ptx::to_src` takes the image to be UTF-8, which the ASCII text
/// of a PTX module is.
#[verifier::external_body]
pub(crate) fn compile_for(src: &str, arch: &'static str, name: &str) -> (r: Result<String, String>)
    requires
        !holds_nul(src@),
        !holds_nul(arch@),
        !holds_nul(name@),
    ensures
        match r {
            Ok(ptx) => nvrtc_may_answer(src@, arch@, name@, true, ptx@),
            Err(e) => nvrtc_may_answer(src@, arch@, name@, false, e@),
        },
{
    cudarc::nvrtc::compile_ptx_with_opts(
        src,
        cudarc::nvrtc::CompileOptions {
            arch: Some(arch),
            name: Some(name.to_string()),
            ..Default::default()
        },
    )
    .map(|ptx| ptx.to_src())
    .map_err(|e| format!("{e:?}"))
}

/// The architecture can be handed to the compiler.
pub(crate) proof fn lemma_target_arch_holds_no_nul()
    ensures
        !holds_nul(TARGET_ARCH@),
{
    reveal_strlit("compute_75");
    let arch = TARGET_ARCH@;
    assert(vstd::utf8::is_ascii_chars(arch));
    vstd::utf8::is_ascii_chars_encode_utf8(arch);
    let bytes = vstd::utf8::encode_utf8(arch);
    assert forall|i: int| 0 <= i < bytes.len() implies bytes[i] != 0u8 by {
        assert(arch[i] as u8 == bytes[i]);
        assert(0 < arch[i] as u32 && arch[i] as u32 <= 127);
    }
}

/// Whether a text holds a NUL byte.
pub fn has_nul(s: &str) -> (found: bool)
    ensures
        found == holds_nul(s@),
{
    let bytes: &[u8] = s.as_bytes();
    let mut i: usize = 0;
    while i < bytes.len()
        invariant
            i <= bytes@.len(),
            bytes@ == vstd::utf8::encode_utf8(s@),
            forall|j: int| 0 <= j < i ==> bytes@[j] != 0,
        decreases bytes@.len() - i,
    {
        if bytes[i] == 0 {
            assert(vstd::utf8::encode_utf8(s@)[i as int] == 0u8);
            return true;
        }
        i = i + 1;
    }
    false
}

/// Compiled PTX keyed by the source that produced it, and the number of times
/// NVRTC was invoked to produce it.
pub struct PtxCache {
    table: Vec<(String, String)>,
    invocations: usize,
}

spec fn holds_at(table: Seq<(String, String)>, src: Seq<char>, i: int) -> bool {
    0 <= i < table.len() && table[i].0@ == src
}

spec fn table_entries(table: Seq<(String, String)>) -> Map<Seq<char>, Seq<char>> {
    Map::new(
        |src: Seq<char>| exists|i: int| holds_at(table, src, i),
        |src: Seq<char>| table[choose|i: int| holds_at(table, src, i)].1@,
    )
}

spec fn no_source_twice(table: Seq<(String, String)>) -> bool {
    forall|i: int, j: int| 0 <= i < j < table.len() ==> table[i].0@ != table[j].0@
}

proof fn lemma_table_push(table: Seq<(String, String)>, entry: (String, String))
    requires
        no_source_twice(table),
        !table_entries(table).contains_key(entry.0@),
    ensures
        no_source_twice(table.push(entry)),
        table_entries(table.push(entry)) == table_entries(table).insert(entry.0@, entry.1@),
{
    let n = table.len() as int;
    let after = table.push(entry);
    let want = table_entries(table).insert(entry.0@, entry.1@);
    assert forall|j: int| 0 <= j < n implies #[trigger] table[j].0@ != entry.0@ by {
        if table[j].0@ == entry.0@ {
            assert(holds_at(table, entry.0@, j));
        }
    }
    assert(holds_at(after, entry.0@, n));
    assert forall|s: Seq<char>| #[trigger]
        table_entries(after).contains_key(s) <==> want.contains_key(s) by {
        if table_entries(table).contains_key(s) {
            let i = choose|i: int| holds_at(table, s, i);
            assert(holds_at(after, s, i));
        }
        if table_entries(after).contains_key(s) {
            let i = choose|i: int| holds_at(after, s, i);
            if i < n {
                assert(holds_at(table, s, i));
            }
        }
    }
    assert forall|s: Seq<char>| want.contains_key(s) implies table_entries(after)[s] == want[s] by {
        let i = choose|i: int| holds_at(after, s, i);
        assert(table_entries(after).contains_key(s));
        assert(holds_at(after, s, i));
        if s == entry.0@ {
            assert(i == n);
        } else {
            let j = choose|j: int| holds_at(table, s, j);
            assert(holds_at(table, s, j));
            assert(holds_at(after, s, j));
            assert(i == j);
        }
    }
    assert(table_entries(after) =~= want);
}

proof fn lemma_table_update(table: Seq<(String, String)>, i: int, entry: (String, String))
    requires
        no_source_twice(table),
        0 <= i < table.len(),
        table[i].0@ == entry.0@,
    ensures
        no_source_twice(table.update(i, entry)),
        table_entries(table.update(i, entry)) == table_entries(table).insert(entry.0@, entry.1@),
{
    let after = table.update(i, entry);
    let want = table_entries(table).insert(entry.0@, entry.1@);
    assert forall|s: Seq<char>, j: int| holds_at(after, s, j) == #[trigger] holds_at(table, s, j) by {
    }
    assert(holds_at(table, entry.0@, i));
    assert forall|s: Seq<char>| #[trigger]
        table_entries(after).contains_key(s) <==> want.contains_key(s) by {
        if table_entries(table).contains_key(s) {
            let j = choose|j: int| holds_at(table, s, j);
            assert(holds_at(after, s, j));
        }
        if table_entries(after).contains_key(s) {
            let j = choose|j: int| holds_at(after, s, j);
            assert(holds_at(table, s, j));
        }
    }
    assert forall|s: Seq<char>| want.contains_key(s) implies table_entries(after)[s] == want[s] by {
        assert(table_entries(after).contains_key(s));
        let j = choose|j: int| holds_at(after, s, j);
        assert(holds_at(after, s, j) && holds_at(table, s, j));
        if s == entry.0@ {
            assert(j == i);
        } else {
            let k = choose|k: int| holds_at(table, s, k);
            assert(holds_at(table, s, k));
            assert(j == k);
        }
    }
    assert(table_entries(after) =~= want);
}

impl PtxCache {
    /// No source is held twice.
    #[verifier::type_invariant]
    spec fn consistent(self) -> bool {
        no_source_twice(self.table@)
    }

    /// The PTX of every source compiled so far.
    pub closed spec fn entries(self) -> Map<Seq<char>, Seq<char>> {
        table_entries(self.table@)
    }

    /// How many times NVRTC was invoked.
    pub closed spec fn count(self) -> usize {
        self.invocations
    }

    /// An empty cache.
    pub fn new() -> (c: Self)
        ensures
            c.entries() == Map::<Seq<char>, Seq<char>>::empty(),
            c.count() == 0,
    {
        let c = PtxCache { table: Vec::new(), invocations: 0 };
        assert(c.entries() =~= Map::<Seq<char>, Seq<char>>::empty());
        c
    }

    /// The PTX cached for `src`.
    pub fn get(&self, src: &str) -> (r: Option<String>)
        ensures
            r is Some <==> self.entries().contains_key(src@),
            r matches Some(ptx) ==> ptx@ == self.entries()[src@],
    {
        proof {
            use_type_invariant(self);
        }
        let key: String = src.to_owned();
        let mut i: usize = 0;
        while i < self.table.len()
            invariant
                i <= self.table@.len(),
                self.consistent(),
                key@ == src@,
                forall|j: int| 0 <= j < i ==> self.table@[j].0@ != src@,
            decreases self.table@.len() - i,
        {
            if self.table[i].0 == key {
                assert(holds_at(self.table@, src@, i as int));
                assert forall|j: int| holds_at(self.table@, src@, j) implies j == i by {
                    if i < j {
                        assert(self.table@[i as int].0@ != self.table@[j].0@);
                    }
                }
                return Some(self.table[i].1.clone());
            }
            i = i + 1;
        }
        assert(forall|j: int| !holds_at(self.table@, src@, j));
        None
    }

    /// Hold `ptx` for `src`, in place of what was held for it.
    fn insert(&mut self, src: &str, ptx: &String)
        ensures
            final(self).entries() == old(self).entries().insert(src@, ptx@),
            final(self).count() == old(self).count(),
    {
        proof {
            use_type_invariant(&*self);
        }
        let ghost before = self.table@;
        let entry: (String, String) = (src.to_owned(), ptx.clone());
        let mut i: usize = 0;
        while i < self.table.len() && self.table[i].0 != entry.0
            invariant
                i <= self.table@.len(),
                forall|j: int| 0 <= j < i ==> self.table@[j].0@ != entry.0@,
            decreases self.table@.len() - i,
        {
            i = i + 1;
        }
        let mut table: Vec<(String, String)> = Vec::new();
        std::mem::swap(&mut table, &mut self.table);
        if i < table.len() {
            proof {
                lemma_table_update(before, i as int, entry);
            }
            table.set(i, entry);
        } else {
            proof {
                assert(forall|j: int| !holds_at(before, entry.0@, j));
                lemma_table_push(before, entry);
            }
            table.push(entry);
        }
        self.table = table;
    }

    /// A cache of the same entries that has counted nothing, for a caller that
    /// compiles without holding this one. [`Self::join`] brings back what it
    /// gained.
    pub fn fork(&self) -> (c: Self)
        ensures
            c.entries() == self.entries(),
            c.count() == 0,
    {
        let mut c = PtxCache::new();
        c.absorb(self);
        assert(c.entries() =~= self.entries());
        c
    }

    /// Take in what a fork compiled: its entries, which replace those held for
    /// the same sources, and its invocations.
    pub fn join(&mut self, other: &PtxCache)
        ensures
            final(self).entries() == old(self).entries().union_prefer_right(other.entries()),
            final(self).count() == wrapped(old(self).count() + other.count()),
    {
        self.absorb(other);
        proof {
            use_type_invariant(&*self);
            lemma_wrapping(self.invocations, other.invocations);
        }
        self.invocations = self.invocations.wrapping_add(other.invocations);
    }

    /// Take in every entry of another cache.
    fn absorb(&mut self, other: &PtxCache)
        ensures
            final(self).entries() == old(self).entries().union_prefer_right(other.entries()),
            final(self).count() == old(self).count(),
    {
        proof {
            use_type_invariant(other);
        }
        let ghost start = self.entries();
        let ghost table = other.table@;
        let mut i: usize = 0;
        assert(start.union_prefer_right(table_entries(table.take(0))) =~= start);
        while i < other.table.len()
            invariant
                i <= table.len(),
                table == other.table@,
                no_source_twice(table),
                self.entries() == start.union_prefer_right(table_entries(table.take(i as int))),
                self.count() == old(self).count(),
            decreases table.len() - i,
        {
            let ghost taken = table.take(i as int);
            let ghost entry = table[i as int];
            self.insert(other.table[i].0.as_str(), &other.table[i].1);
            proof {
                assert forall|j: int| !holds_at(taken, entry.0@, j) by {
                    if holds_at(taken, entry.0@, j) {
                        assert(table[j].0@ != table[i as int].0@);
                    }
                }
                lemma_table_push(taken, entry);
                assert(taken.push(entry) =~= table.take(i + 1));
                assert(start.union_prefer_right(table_entries(taken)).insert(entry.0@, entry.1@)
                    =~= start.union_prefer_right(
                    table_entries(taken).insert(entry.0@, entry.1@),
                ));
            }
            i = i + 1;
        }
        assert(table.take(i as int) =~= table);
    }

    /// Count one invocation. The counter wraps.
    fn invoked(&mut self)
        ensures
            final(self).entries() == old(self).entries(),
            final(self).count() == next_count(old(self).count()),
    {
        proof {
            use_type_invariant(&*self);
        }
        self.invocations = self.invocations.wrapping_add(1);
    }
}

/// The counter after one more invocation. It wraps at the width of a machine
/// word.
pub open spec fn next_count(n: usize) -> usize {
    if n == usize::MAX {
        0
    } else {
        (n + 1) as usize
    }
}

/// A count modulo the width of a machine word.
pub open spec fn wrapped(n: int) -> usize {
    (n % (usize::MAX + 1)) as usize
}

proof fn lemma_wrapping(a: usize, b: usize)
    ensures
        a.wrapping_add(b) == wrapped(a + b),
{
    let m = usize::MAX + 1;
    if a + b < m {
        lemma_small_mod((a + b) as nat, m as nat);
    } else {
        lemma_small_mod((a + b - m) as nat, m as nat);
        lemma_add_mod_noop(a + b - m, m, m);
        vstd::arithmetic::div_mod::lemma_mod_self_0(m);
    }
}

/// What [`compile`] returns for what the compiler answered: the PTX as it is,
/// or the diagnostics behind the name of the kernel.
pub open spec fn named_diagnostics(name: Seq<char>, diagnostics: Seq<char>) -> Seq<char> {
    name + ": "@ + diagnostics
}

/// Number of NVRTC compilations so far, cache hits excluded.
pub fn nvrtc_invocations(cache: &PtxCache) -> (n: usize)
    ensures
        n == cache.count(),
{
    cache.invocations
}

/// Whether `src` already has compiled PTX cached.
pub fn is_cached(cache: &PtxCache, src: &str) -> (b: bool)
    ensures
        b == cache.entries().contains_key(src@),
{
    cache.get(src).is_some()
}

/// Record what the compiler answered for a source.
///
/// One invocation is counted either way. PTX is kept and returned;
/// diagnostics are returned behind the kernel's name and not kept.
pub fn record(cache: &mut PtxCache, src: &str, name: &str, answer: Result<String, String>) -> (r:
    Result<String, String>)
    ensures
        final(cache).count() == next_count(old(cache).count()),
        match answer {
            Ok(ptx) => {
                &&& r == Ok::<String, String>(ptx)
                &&& final(cache).entries() == old(cache).entries().insert(src@, ptx@)
            },
            Err(e) => {
                &&& r matches Err(text) && text@ == named_diagnostics(name@, e@)
                &&& final(cache).entries() == old(cache).entries()
            },
        },
{
    cache.invoked();
    match answer {
        Ok(ptx) => {
            cache.insert(src, &ptx);
            Ok(ptx)
        },
        Err(e) => {
            let mut text: String = name.to_owned();
            text.append(": ");
            text.append(e.as_str());
            Err(text)
        },
    }
}

/// How compiling `src` moves a cache: a source that is held moves nothing, and
/// one that is not held costs one invocation and gains at most its own entry.
pub open spec fn compiled(before: PtxCache, after: PtxCache, src: Seq<char>) -> bool {
    if before.entries().contains_key(src) {
        after.entries() == before.entries() && after.count() == before.count()
    } else {
        &&& after.count() == next_count(before.count())
        &&& after.entries() == before.entries() || exists|ptx: Seq<char>|
            after.entries() == #[trigger] before.entries().insert(src, ptx)
    }
}

/// Compile a CUDA C++ source to PTX for [`TARGET_ARCH`], memoized on the
/// source.
///
/// `name` appears in the diagnostics, so it should identify the kernel rather
/// than the caller. A hit returns what the first compilation returned and
/// invokes nothing.
pub fn compile(cache: &mut PtxCache, src: &str, name: &str) -> (r: Result<String, String>)
    requires
        !old(cache).entries().contains_key(src@) ==> !holds_nul(src@)
            && !holds_nul(name@),
    ensures
        compiled(*old(cache), *final(cache), src@),
        old(cache).entries().contains_key(src@) ==> {
            &&& r matches Ok(ptx) && ptx@ == old(cache).entries()[src@]
            &&& final(cache).entries() == old(cache).entries()
            &&& final(cache).count() == old(cache).count()
        },
        !old(cache).entries().contains_key(src@) ==> {
            &&& final(cache).count() == next_count(old(cache).count())
            &&& r matches Ok(ptx) ==> {
                &&& final(cache).entries() == old(cache).entries().insert(src@, ptx@)
                &&& nvrtc_may_answer(src@, TARGET_ARCH@, name@, true, ptx@)
            }
            &&& r matches Err(text) ==> {
                &&& final(cache).entries() == old(cache).entries()
                &&& exists|e: Seq<char>|
                    text@ == named_diagnostics(name@, e) && #[trigger] nvrtc_may_answer(
                        src@,
                        TARGET_ARCH@,
                        name@,
                        false,
                        e,
                    )
            }
        },
{
    match cache.get(src) {
        Some(ptx) => Ok(ptx),
        None => {
            proof {
                lemma_target_arch_holds_no_nul();
            }
            let answer: Result<String, String> = compile_for(src, TARGET_ARCH, name);
            record(cache, src, name, answer)
        },
    }
}

/// `ptx` is what the cache serves for `src`: the entry it held, or the one it
/// has gained. No other entry moves.
pub open spec fn served(
    before: Map<Seq<char>, Seq<char>>,
    after: Map<Seq<char>, Seq<char>>,
    src: Seq<char>,
    ptx: Seq<char>,
) -> bool {
    if before.contains_key(src) {
        ptx == before[src] && after == before
    } else {
        after == before.insert(src, ptx)
    }
}

/// What is served for `src` under `name`, and where the cache held nothing, it
/// is an answer of the compiler to exactly that source and name.
pub open spec fn obtained(
    before: Map<Seq<char>, Seq<char>>,
    after: Map<Seq<char>, Seq<char>>,
    src: Seq<char>,
    name: Seq<char>,
    ptx: Seq<char>,
) -> bool {
    &&& served(before, after, src, ptx)
    &&& !before.contains_key(src) ==> nvrtc_may_answer(src, TARGET_ARCH@, name, true, ptx)
}

/// The error text of a source that did not compile under `name`: the
/// compiler's diagnostics behind the name, or the note that a text holds a NUL
/// byte and never reached the compiler.
pub open spec fn rejected(src: Seq<char>, name: Seq<char>, text: Seq<char>) -> bool {
    if holds_nul(src) || holds_nul(name) {
        text == named_diagnostics(name, "the text holds a NUL byte"@)
    } else {
        exists|e: Seq<char>|
            text == named_diagnostics(name, e) && #[trigger] nvrtc_may_answer(
                src,
                TARGET_ARCH@,
                name,
                false,
                e,
            )
    }
}

/// The invocations that compiling `src` under `name` costs: one where the
/// source is not held and can be handed to the compiler, none otherwise.
pub open spec fn counted(
    before: PtxCache,
    after: PtxCache,
    src: Seq<char>,
    name: Seq<char>,
) -> bool {
    after.count() == if before.entries().contains_key(src) || holds_nul(src) || holds_nul(name) {
        before.count()
    } else {
        next_count(before.count())
    }
}

/// How many of a sequence of compilations found their source not held, where
/// `states[i]` is the cache in front of the compilation of `sources[i]`.
pub open spec fn misses(states: Seq<PtxCache>, sources: Seq<Seq<char>>) -> nat
    decreases sources.len(),
{
    if sources.len() == 0 {
        0
    } else {
        let n = (sources.len() - 1) as nat;
        misses(states, sources.drop_last()) + if states[n as int].entries().contains_key(
            sources[n as int],
        ) {
            0nat
        } else {
            1nat
        }
    }
}

/// Over any sequence of compilations the invocations grow by the number of
/// misses, whether those compiled or failed; a hit adds nothing. Short of the
/// width of a machine word, the count never falls.
pub proof fn law_invocations_count_the_misses(states: Seq<PtxCache>, sources: Seq<Seq<char>>)
    requires
        states.len() == sources.len() + 1,
        forall|i: int|
            0 <= i < sources.len() ==> compiled(states[i], states[i + 1], #[trigger] sources[i]),
    ensures
        misses(states, sources) <= sources.len(),
        states.last().count() == wrapped(states[0].count() + misses(states, sources)),
        states[0].count() + misses(states, sources) <= usize::MAX ==> states.last().count()
            == states[0].count() + misses(states, sources),
    decreases sources.len(),
{
    let m = usize::MAX + 1;
    let first = states[0].count() as int;
    if sources.len() == 0 {
        lemma_small_mod(first as nat, m as nat);
    } else {
        let n = sources.len() - 1;
        let fewer = sources.drop_last();
        let earlier = states.take(n + 1);
        assert forall|i: int| 0 <= i < fewer.len() implies compiled(
            earlier[i],
            earlier[i + 1],
            #[trigger] fewer[i],
        ) by {
            assert(fewer[i] == sources[i]);
        }
        law_invocations_count_the_misses(earlier, fewer);
        lemma_misses_of_a_prefix(states, n + 1, fewer);
        assert(compiled(states[n], states[n + 1], sources[n]));
        let total = first + misses(states, fewer);
        if !states[n].entries().contains_key(sources[n]) {
            lemma_next_count(total);
        }
        let all = first + misses(states, sources);
        if all <= usize::MAX {
            lemma_small_mod(all as nat, m as nat);
        }
    }
}

proof fn lemma_misses_of_a_prefix(states: Seq<PtxCache>, n: int, sources: Seq<Seq<char>>)
    requires
        sources.len() < n <= states.len(),
    ensures
        misses(states.take(n), sources) == misses(states, sources),
    decreases sources.len(),
{
    if sources.len() > 0 {
        lemma_misses_of_a_prefix(states, n, sources.drop_last());
    }
}

proof fn lemma_next_count(n: int)
    requires
        0 <= n,
    ensures
        next_count(wrapped(n)) == wrapped(n + 1),
{
    let m = usize::MAX + 1;
    lemma_add_mod_noop(n, 1, m);
    lemma_small_mod(1, m as nat);
    let low = n % m;
    if low + 1 < m {
        lemma_small_mod((low + 1) as nat, m as nat);
    } else {
        vstd::arithmetic::div_mod::lemma_mod_self_0(m);
    }
}

/// Joining caches one after the other adds what each of them counted, in
/// whatever order they come: `states[i]` is the cache in front of the joining
/// of `forks[i]`.
pub proof fn law_joined_invocations_add(states: Seq<PtxCache>, forks: Seq<PtxCache>)
    requires
        states.len() == forks.len() + 1,
        forall|i: int|
            0 <= i < forks.len() ==> states[i + 1].count() == wrapped(
                states[i].count() + (#[trigger] forks[i]).count(),
            ),
    ensures
        states.last().count() == wrapped(states[0].count() + total_count(forks)),
    decreases forks.len(),
{
    let m = usize::MAX + 1;
    let first = states[0].count() as int;
    if forks.len() == 0 {
        lemma_small_mod(first as nat, m as nat);
    } else {
        let n = forks.len() - 1;
        let fewer = forks.drop_last();
        let earlier = states.take(n + 1);
        assert forall|i: int| 0 <= i < fewer.len() implies earlier[i + 1].count() == wrapped(
            earlier[i].count() + (#[trigger] fewer[i]).count(),
        ) by {
            assert(fewer[i] == forks[i]);
        }
        law_joined_invocations_add(earlier, fewer);
        let total = first + total_count(fewer);
        let last = forks[n].count() as int;
        assert(states[n + 1].count() == wrapped(states[n].count() + forks[n].count()));
        lemma_add_mod_noop(total, last, m);
        lemma_add_mod_noop(total % m, last, m);
        vstd::arithmetic::div_mod::lemma_mod_twice(total, m);
    }
}

/// What a sequence of caches counted together.
pub open spec fn total_count(caches: Seq<PtxCache>) -> nat
    decreases caches.len(),
{
    if caches.len() == 0 {
        0
    } else {
        total_count(caches.drop_last()) + caches.last().count() as nat
    }
}

/// A source that was served once is held from then on, with the same PTX.
pub proof fn law_served_source_is_held(
    before: Map<Seq<char>, Seq<char>>,
    after: Map<Seq<char>, Seq<char>>,
    src: Seq<char>,
    ptx: Seq<char>,
)
    requires
        served(before, after, src, ptx),
    ensures
        after.contains_key(src),
        after[src] == ptx,
        forall|again: Seq<char>, later: Map<Seq<char>, Seq<char>>| #[trigger]
            served(after, later, src, again) ==> again == ptx && later == after,
{
}

/// Serving one source leaves the entry of every other source as it was.
pub proof fn law_sources_do_not_collide(
    before: Map<Seq<char>, Seq<char>>,
    after: Map<Seq<char>, Seq<char>>,
    src: Seq<char>,
    ptx: Seq<char>,
    other: Seq<char>,
)
    requires
        served(before, after, src, ptx),
        other != src,
    ensures
        after.contains_key(other) == before.contains_key(other),
        before.contains_key(other) ==> after[other] == before[other],
{
}

/// Compile one of the crate's own sources for a kernel family.
///
/// A text with an embedded NUL cannot be handed to the compiler and is
/// reported the way a rejected source is.
pub(crate) fn compile_family(cache: &mut PtxCache, src: &str, name: &str) -> (r: Result<
    String,
    String,
>)
    ensures
        old(cache).entries().contains_key(src@) ==> r is Ok,
        counted(*old(cache), *final(cache), src@, name@),
        r matches Ok(ptx) ==> obtained(
            old(cache).entries(),
            final(cache).entries(),
            src@,
            name@,
            ptx@,
        ),
        r matches Err(text) ==> rejected(src@, name@, text@) && final(cache).entries() == old(
            cache,
        ).entries(),
{
    if !is_cached(cache, src) && (has_nul(src) || has_nul(name)) {
        let mut text: String = name.to_owned();
        text.append(": ");
        text.append("the text holds a NUL byte");
        return Err(text);
    }
    compile(cache, src, name)
}

/// Diagnostics are handed on under the name of the kernel: the text begins with
/// the name, ends with what the compiler said, and between them stands a colon
/// and a space.
pub proof fn law_diagnostics_keep_name_and_text(name: Seq<char>, diagnostics: Seq<char>)
    ensures
        ({
            let text = named_diagnostics(name, diagnostics);
            let n = name.len() as int;
            &&& text.len() == n + 2 + diagnostics.len()
            &&& text.take(n) == name
            &&& text[n] == ':'
            &&& text[n + 1] == ' '
            &&& text.skip(n + 2) == diagnostics
        }),
{
    reveal_strlit(": ");
    let text = named_diagnostics(name, diagnostics);
    let n = name.len() as int;
    assert(text.take(n) =~= name);
    assert(text.skip(n + 2) =~= diagnostics);
}

/// The counter moves by one, and only at its very end back to zero.
pub proof fn law_counter_moves_by_one(n: usize)
    ensures
        next_count(n) == n + 1 || (n == usize::MAX && next_count(n) == 0),
        next_count(n) != n,
{
}

} // verus!
