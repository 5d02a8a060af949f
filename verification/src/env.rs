//! The environment: variable bindings, function definitions, and the
//! dice-roll source.
//!
//! Variables and functions live in two association tables sharing one name
//! space; their mathematical shape is a [`Map`] from identifier text to the
//! bound value's model, respectively to the bound function.  Dice rolls come
//! from a deterministic pseudorandom stream: the environment carries the
//! stream's current state, and every draw is specified exactly by
//! [`next_state`] and [`draw_val`], so a roll of `n` dice with `s` sides is
//! provably a list of `n` integers, each between one and `s`.

use vstd::prelude::*;
use vstd::string::StringExecFns;
use crate::error::{EvalErr, ParseResult, RollerErr};
use crate::syntax_tree::{Ident, RollerFun};
use crate::values::{NumType, ValModel, Value, models_of};

verus! {

/// The map an association table stands for, reading values through `f`.
/// The earliest entry under a key wins.
pub open spec fn assoc_map<V, M>(s: Seq<(Ident, V)>, f: spec_fn(V) -> M) -> Map<Seq<char>, M>
    decreases s.len(),
{
    if s.len() == 0 {
        Map::empty()
    } else {
        assoc_map(s.drop_first(), f).insert(s[0].0@, f(s[0].1))
    }
}

/// No two entries of the table share a key.
pub open spec fn keys_unique<V>(s: Seq<(Ident, V)>) -> bool {
    forall|i: int, j: int| 0 <= i < j < s.len() ==> s[i].0@ != s[j].0@
}

/// A key is in the map exactly when some entry carries it.
proof fn lemma_assoc_contains<V, M>(s: Seq<(Ident, V)>, f: spec_fn(V) -> M, k: Seq<char>)
    ensures
        assoc_map(s, f).contains_key(k) <==> exists|i: int| 0 <= i < s.len() && s[i].0@ == k,
    decreases s.len(),
{
    if s.len() > 0 {
        lemma_assoc_contains(s.drop_first(), f, k);
        if exists|i: int| 0 <= i < s.drop_first().len() && s.drop_first()[i].0@ == k {
            let i = choose|i: int| 0 <= i < s.drop_first().len() && s.drop_first()[i].0@ == k;
            assert(s[i + 1].0@ == k);
        }
        if exists|i: int| 0 <= i < s.len() && s[i].0@ == k {
            let i = choose|i: int| 0 <= i < s.len() && s[i].0@ == k;
            if i > 0 {
                assert(s.drop_first()[i - 1].0@ == k);
            }
        }
    }
}

/// The map reads the first entry under a key.
proof fn lemma_assoc_get<V, M>(s: Seq<(Ident, V)>, f: spec_fn(V) -> M, i: int)
    requires
        0 <= i < s.len(),
        forall|j: int| 0 <= j < i ==> s[j].0@ != s[i].0@,
    ensures
        assoc_map(s, f).contains_key(s[i].0@),
        assoc_map(s, f)[s[i].0@] == f(s[i].1),
    decreases i,
{
    if i > 0 {
        lemma_assoc_get(s.drop_first(), f, i - 1);
    }
}

/// Removing the only entry under a key removes the key from the map.
proof fn lemma_assoc_remove<V, M>(s: Seq<(Ident, V)>, f: spec_fn(V) -> M, i: int)
    requires
        0 <= i < s.len(),
        forall|j: int| 0 <= j < s.len() && j != i ==> s[j].0@ != s[i].0@,
    ensures
        assoc_map(s.remove(i), f) == assoc_map(s, f).remove(s[i].0@),
    decreases i,
{
    let k = s[i].0@;
    if i == 0 {
        lemma_assoc_contains(s.drop_first(), f, k);
        assert(s.remove(0) =~= s.drop_first());
        assert(assoc_map(s.drop_first(), f) =~= assoc_map(s, f).remove(k));
    } else {
        lemma_assoc_remove(s.drop_first(), f, i - 1);
        assert(s.remove(i).drop_first() =~= s.drop_first().remove(i - 1));
        assert(s.remove(i)[0] == s[0]);
        assert(assoc_map(s.remove(i), f) == assoc_map(s.drop_first().remove(i - 1), f).insert(
            s[0].0@,
            f(s[0].1),
        ));
        assert(assoc_map(s.drop_first(), f).remove(k).insert(s[0].0@, f(s[0].1))
            =~= assoc_map(s.drop_first(), f).insert(s[0].0@, f(s[0].1)).remove(k));
    }
}

/// Appending an entry under a fresh key inserts it into the map.
proof fn lemma_assoc_push<V, M>(s: Seq<(Ident, V)>, f: spec_fn(V) -> M, p: (Ident, V))
    requires
        forall|j: int| 0 <= j < s.len() ==> s[j].0@ != p.0@,
    ensures
        assoc_map(s.push(p), f) == assoc_map(s, f).insert(p.0@, f(p.1)),
    decreases s.len(),
{
    if s.len() == 0 {
        assert(s.push(p).drop_first() =~= Seq::<(Ident, V)>::empty());
        assert(s.push(p)[0] == p);
        assert(assoc_map(s.push(p).drop_first(), f) =~= Map::<Seq<char>, M>::empty());
        assert(assoc_map(s.push(p), f) =~= assoc_map(s, f).insert(p.0@, f(p.1)));
    } else {
        lemma_assoc_push(s.drop_first(), f, p);
        assert(s.push(p).drop_first() =~= s.drop_first().push(p));
        assert(s.push(p)[0] == s[0]);
        assert(assoc_map(s.drop_first(), f).insert(p.0@, f(p.1)).insert(s[0].0@, f(s[0].1))
            =~= assoc_map(s.drop_first(), f).insert(s[0].0@, f(s[0].1)).insert(p.0@, f(p.1)));
    }
}

/// Tables whose entries agree key by key and, through `f`, value by value
/// stand for the same map.
proof fn lemma_assoc_equiv<V, M>(s1: Seq<(Ident, V)>, s2: Seq<(Ident, V)>, f: spec_fn(V) -> M)
    requires
        s1.len() == s2.len(),
        forall|i: int| 0 <= i < s1.len() ==> s1[i].0@ == s2[i].0@ && f(s1[i].1) == f(s2[i].1),
    ensures
        assoc_map(s1, f) == assoc_map(s2, f),
    decreases s1.len(),
{
    if s1.len() > 0 {
        lemma_assoc_equiv(s1.drop_first(), s2.drop_first(), f);
        assert(assoc_map(s1, f) =~= assoc_map(s2, f));
    }
}

/// The reading function of the variable table.
pub open spec fn val_model_fn() -> spec_fn(Value) -> ValModel {
    |v: Value| v.model()
}

/// The reading function of the function table.
pub open spec fn fun_id_fn() -> spec_fn(RollerFun) -> RollerFun {
    |f: RollerFun| f
}

/// The map a variable table stands for.
pub open spec fn vars_map(s: Seq<(Ident, Value)>) -> Map<Seq<char>, ValModel> {
    assoc_map(s, val_model_fn())
}

/// The map a function table stands for.
pub open spec fn funs_map(s: Seq<(Ident, RollerFun)>) -> Map<Seq<char>, RollerFun> {
    assoc_map(s, fun_id_fn())
}

/// Looks a variable up in a table; the returned value's model is the one
/// the table's map holds under the identifier.
pub fn vars_get<'a>(table: &'a Vec<(Ident, Value)>, id: &Ident) -> (r: Option<&'a Value>)
    ensures
        (match r {
            Some(v) => vars_map(table@).contains_key(id@) && v.model() == vars_map(table@)[id@],
            None => !vars_map(table@).contains_key(id@),
        }),
{
    let n = table.len();
    let mut i: usize = 0;
    while i < n
        invariant
            n == table@.len(),
            0 <= i <= n,
            forall|j: int| 0 <= j < i ==> table@[j].0@ != id@,
        decreases n - i,
    {
        if table[i].0 == *id {
            proof {
                lemma_assoc_get(table@, val_model_fn(), i as int);
            }
            return Some(&table[i].1);
        }
        i = i + 1;
    }
    proof {
        lemma_assoc_contains(table@, val_model_fn(), id@);
    }
    None
}

/// Looks a function up in a table.
pub fn funs_get<'a>(table: &'a Vec<(Ident, RollerFun)>, id: &Ident) -> (r: Option<
    &'a RollerFun,
>)
    ensures
        (match r {
            Some(f) => funs_map(table@).contains_key(id@) && *f == funs_map(table@)[id@],
            None => !funs_map(table@).contains_key(id@),
        }),
{
    let n = table.len();
    let mut i: usize = 0;
    while i < n
        invariant
            n == table@.len(),
            0 <= i <= n,
            forall|j: int| 0 <= j < i ==> table@[j].0@ != id@,
        decreases n - i,
    {
        if table[i].0 == *id {
            proof {
                lemma_assoc_get(table@, fun_id_fn(), i as int);
            }
            return Some(&table[i].1);
        }
        i = i + 1;
    }
    proof {
        lemma_assoc_contains(table@, fun_id_fn(), id@);
    }
    None
}

/// Removes the entry under an identifier, if any; a no-op otherwise.
fn vars_del(table: &mut Vec<(Ident, Value)>, id: &Ident)
    requires
        keys_unique(old(table)@),
    ensures
        keys_unique(final(table)@),
        vars_map(final(table)@) == vars_map(old(table)@).remove(id@),
{
    let n = table.len();
    let mut i: usize = 0;
    while i < n
        invariant
            n == table@.len(),
            0 <= i <= n,
            *table == *old(table),
            keys_unique(table@),
            forall|j: int| 0 <= j < i ==> table@[j].0@ != id@,
        decreases n - i,
    {
        if table[i].0 == *id {
            let ghost pre = table@;
            proof {
                assert forall|j: int| 0 <= j < pre.len() && j != i as int implies pre[j].0@
                    != pre[i as int].0@ by {
                    if j < i as int {
                        assert(pre[j].0@ != pre[i as int].0@);
                    } else {
                        assert(pre[i as int].0@ != pre[j].0@);
                    }
                }
                lemma_assoc_remove(pre, val_model_fn(), i as int);
            }
            table.remove(i);
            proof {
                assert forall|a: int, b: int| 0 <= a < b < table@.len() implies table@[a].0@
                    != table@[b].0@ by {
                    assert(table@[a] == if a < i as int {
                        pre[a]
                    } else {
                        pre[a + 1]
                    });
                    assert(table@[b] == if b < i as int {
                        pre[b]
                    } else {
                        pre[b + 1]
                    });
                }
            }
            return ;
        }
        i = i + 1;
    }
    proof {
        lemma_assoc_contains(table@, val_model_fn(), id@);
        assert(vars_map(table@) =~= vars_map(table@).remove(id@));
    }
}

/// Removes the function entry under an identifier, if any.
fn funs_del(table: &mut Vec<(Ident, RollerFun)>, id: &Ident)
    requires
        keys_unique(old(table)@),
    ensures
        keys_unique(final(table)@),
        funs_map(final(table)@) == funs_map(old(table)@).remove(id@),
{
    let n = table.len();
    let mut i: usize = 0;
    while i < n
        invariant
            n == table@.len(),
            0 <= i <= n,
            *table == *old(table),
            keys_unique(table@),
            forall|j: int| 0 <= j < i ==> table@[j].0@ != id@,
        decreases n - i,
    {
        if table[i].0 == *id {
            let ghost pre = table@;
            proof {
                assert forall|j: int| 0 <= j < pre.len() && j != i as int implies pre[j].0@
                    != pre[i as int].0@ by {
                    if j < i as int {
                        assert(pre[j].0@ != pre[i as int].0@);
                    } else {
                        assert(pre[i as int].0@ != pre[j].0@);
                    }
                }
                lemma_assoc_remove(pre, fun_id_fn(), i as int);
            }
            table.remove(i);
            proof {
                assert forall|a: int, b: int| 0 <= a < b < table@.len() implies table@[a].0@
                    != table@[b].0@ by {
                    assert(table@[a] == if a < i as int {
                        pre[a]
                    } else {
                        pre[a + 1]
                    });
                    assert(table@[b] == if b < i as int {
                        pre[b]
                    } else {
                        pre[b + 1]
                    });
                }
            }
            return ;
        }
        i = i + 1;
    }
    proof {
        lemma_assoc_contains(table@, fun_id_fn(), id@);
        assert(funs_map(table@) =~= funs_map(table@).remove(id@));
    }
}

/// Binds a variable in a table, overwriting any prior entry under the
/// identifier.
pub fn vars_set(table: &mut Vec<(Ident, Value)>, id: &Ident, val: Value)
    requires
        keys_unique(old(table)@),
    ensures
        keys_unique(final(table)@),
        vars_map(final(table)@) == vars_map(old(table)@).insert(id@, val.model()),
{
    vars_del(table, id);
    let ghost mid = table@;
    table.push(((*id).clone(), val));
    proof {
        let p = table@.last();
        assert(p.0@ == id@);
        lemma_assoc_contains(mid, val_model_fn(), id@);
        assert(forall|j: int| 0 <= j < mid.len() ==> mid[j].0@ != id@);
        lemma_assoc_push(mid, val_model_fn(), p);
        assert(keys_unique(table@));
        assert(vars_map(old(table)@).remove(id@).insert(id@, val.model())
            =~= vars_map(old(table)@).insert(id@, val.model()));
    }
}

/// Registers a function in a table, overwriting any prior definition.
fn funs_set(table: &mut Vec<(Ident, RollerFun)>, id: &Ident, fun: RollerFun)
    requires
        keys_unique(old(table)@),
    ensures
        keys_unique(final(table)@),
        funs_map(final(table)@) == funs_map(old(table)@).insert(id@, fun),
{
    funs_del(table, id);
    let ghost mid = table@;
    table.push(((*id).clone(), fun));
    proof {
        let p = table@.last();
        assert(p.0@ == id@);
        lemma_assoc_contains(mid, fun_id_fn(), id@);
        assert(forall|j: int| 0 <= j < mid.len() ==> mid[j].0@ != id@);
        lemma_assoc_push(mid, fun_id_fn(), p);
        assert(keys_unique(table@));
        assert(funs_map(old(table)@).remove(id@).insert(id@, fun)
            =~= funs_map(old(table)@).insert(id@, fun));
    }
}

/// Duplicates a variable table; the copy stands for the same map.
pub fn vars_dup(table: &Vec<(Ident, Value)>) -> (r: Vec<(Ident, Value)>)
    ensures
        vars_map(r@) == vars_map(table@),
        keys_unique(table@) ==> keys_unique(r@),
{
    let n = table.len();
    let mut out: Vec<(Ident, Value)> = Vec::new();
    let mut i: usize = 0;
    while i < n
        invariant
            n == table@.len(),
            0 <= i <= n,
            out@.len() == i as int,
            forall|j: int| #![all_triggers]
                0 <= j < i ==> out@[j].0@ == table@[j].0@ && out@[j].1.model()
                    == table@[j].1.model(),
        decreases n - i,
    {
        out.push((table[i].0.clone(), table[i].1.clone()));
        i = i + 1;
    }
    proof {
        lemma_assoc_equiv(out@, table@, val_model_fn());
    }
    out
}

/// The multiplier of the pseudorandom stream.
pub const RNG_MULT: u64 = 6364136223846793005;

/// The increment of the pseudorandom stream.
pub const RNG_INC: u64 = 1442695040888963407;

/// The seed a freshly created environment starts from.
pub const DEFAULT_SEED: u64 = 0x853c49e6748fea9b;

/// One step of the pseudorandom stream.
pub open spec fn next_state(s: u64) -> u64 {
    vstd::wrapping::u64_specs::wrapping_add(
        vstd::wrapping::u64_specs::wrapping_mul(s, RNG_MULT),
        RNG_INC,
    )
}

/// The die face drawn from a stream state: between one and `sides` for a
/// positive number of sides, and zero for zero sides (the environment's
/// convention for degenerate dice).
pub open spec fn draw_val(s: u64, sides: i64) -> i64 {
    if sides <= 0 {
        0
    } else {
        (1 + ((s as int) % (sides as int))) as i64
    }
}

/// The roll of `n` dice with `sides` sides from a stream state: the drawn
/// faces in order, and the state the stream is left in.
pub open spec fn spec_roll(n: int, sides: i64, state: u64) -> (Seq<ValModel>, u64)
    decreases n,
{
    if n <= 0 {
        (Seq::empty(), state)
    } else {
        let s1 = next_state(state);
        let rest = spec_roll(n - 1, sides, s1);
        (seq![ValModel::Int(draw_val(s1, sides))] + rest.0, rest.1)
    }
}

/// Advances the pseudorandom stream by one step.
fn next_state_exec(s: u64) -> (r: u64)
    ensures
        r == next_state(s),
{
    s.wrapping_mul(RNG_MULT).wrapping_add(RNG_INC)
}

/// Rolls `n` dice with `sides` sides, drawing from the pseudorandom stream;
/// returns the faces in order together with the stream's new state.
pub fn roll(n: i64, sides: i64, state: u64) -> (r: (Vec<Value>, u64))
    requires
        n >= 0,
        sides >= 0,
    ensures
        models_of(r.0@) == spec_roll(n as int, sides, state).0,
        r.1 == spec_roll(n as int, sides, state).1,
{
    let mut out: Vec<Value> = Vec::new();
    let mut cur: u64 = state;
    let mut i: i64 = 0;
    while i < n
        invariant
            0 <= i <= n,
            out@.len() == i as int,
            models_of(out@) + spec_roll(n - i, sides, cur).0 == spec_roll(n as int, sides, state).0,
            spec_roll(n - i, sides, cur).1 == spec_roll(n as int, sides, state).1,
            sides >= 0,
        decreases n - i,
    {
        let ghost pre = out@;
        let ghost pre_cur = cur;
        cur = next_state_exec(cur);
        let face: i64 = if sides == 0 {
            0
        } else {
            let m: u64 = cur % (sides as u64);
            (m + 1) as i64
        };
        proof {
            assert(face == draw_val(cur, sides));
        }
        out.push(Value::Num(NumType::Int(face)));
        i = i + 1;
        proof {
            assert(models_of(out@) =~= models_of(pre) + seq![ValModel::Int(face)]);
            assert(spec_roll(n - i + 1, sides, pre_cur).0 == seq![ValModel::Int(face)] + spec_roll(
                n - i,
                sides,
                cur,
            ).0);
            assert(models_of(out@) + spec_roll(n - i, sides, cur).0 =~= models_of(pre) + spec_roll(
                n - i + 1,
                sides,
                pre_cur,
            ).0);
        }
    }
    proof {
        assert(models_of(out@) + spec_roll(0, sides, cur).0 =~= models_of(out@));
    }
    (out, cur)
}

/// The store of variable bindings and user-defined functions, together with
/// the dice-roll stream's state.  Variables and functions share one name
/// space, kept in two tables; every binding operation keeps the tables'
/// keys unique.
pub struct RollerEnv {
    pub vars: Vec<(Ident, Value)>,
    pub funs: Vec<(Ident, RollerFun)>,
    pub rng: u64,
}

impl RollerEnv {
    /// The tables' keys are unique; every constructor establishes this and
    /// every method preserves it.
    pub open spec fn wf(&self) -> bool {
        keys_unique(self.vars@) && keys_unique(self.funs@)
    }

    /// The map of variable bindings this environment holds.
    pub open spec fn vars_model(&self) -> Map<Seq<char>, ValModel> {
        vars_map(self.vars@)
    }

    /// The map of function definitions this environment holds.
    pub open spec fn funs_model(&self) -> Map<Seq<char>, RollerFun> {
        funs_map(self.funs@)
    }

    /// The current state of the dice-roll stream.
    pub open spec fn rng_state(&self) -> u64 {
        self.rng
    }

    /// An empty environment with the default dice seed.
    pub fn new() -> (e: RollerEnv)
        ensures
            e.wf(),
            e.vars_model() == Map::<Seq<char>, ValModel>::empty(),
            e.funs_model() == Map::<Seq<char>, RollerFun>::empty(),
            e.rng_state() == DEFAULT_SEED,
    {
        RollerEnv { vars: Vec::new(), funs: Vec::new(), rng: DEFAULT_SEED }
    }

    /// An empty environment rolling dice from the given seed.
    pub fn with_seed(seed: u64) -> (e: RollerEnv)
        ensures
            e.wf(),
            e.vars_model() == Map::<Seq<char>, ValModel>::empty(),
            e.funs_model() == Map::<Seq<char>, RollerFun>::empty(),
            e.rng_state() == seed,
    {
        RollerEnv { vars: Vec::new(), funs: Vec::new(), rng: seed }
    }

    /// Reads a variable; an unbound identifier is an undefined-variable
    /// error carrying the identifier.
    pub fn get_var(&self, id: &Ident) -> (r: ParseResult<Value>)
        ensures
            (match r {
                Ok(v) => self.vars_model().contains_key(id@) && v.model()
                    == self.vars_model()[id@],
                Err(e) => !self.vars_model().contains_key(id@) && e == RollerErr::EvalError(
                    EvalErr::UndefinedVariable(*id),
                ),
            }),
    {
        match vars_get(&self.vars, id) {
            Some(v) => Ok(v.clone()),
            None => Err(RollerErr::EvalError(EvalErr::UndefinedVariable((*id).clone()))),
        }
    }

    /// Binds a variable, overwriting any prior binding of the name, be it a
    /// variable or a function.
    pub fn assign_var(&mut self, id: &Ident, val: Value)
        requires
            old(self).wf(),
        ensures
            final(self).wf(),
            final(self).vars_model() == old(self).vars_model().insert(id@, val.model()),
            final(self).funs_model() == old(self).funs_model().remove(id@),
            final(self).rng_state() == old(self).rng_state(),
    {
        vars_set(&mut self.vars, id, val);
        funs_del(&mut self.funs, id);
    }

    /// Registers a function, overwriting any prior binding of the name, be
    /// it a variable or a function.
    pub fn declare_function(&mut self, id: &Ident, fun: RollerFun)
        requires
            old(self).wf(),
        ensures
            final(self).wf(),
            final(self).funs_model() == old(self).funs_model().insert(id@, fun),
            final(self).vars_model() == old(self).vars_model().remove(id@),
            final(self).rng_state() == old(self).rng_state(),
    {
        funs_set(&mut self.funs, id, fun);
        vars_del(&mut self.vars, id);
    }

    /// Removes any binding under the identifier, variable or function;
    /// succeeds also when the identifier is unbound.
    pub fn delete_id(&mut self, id: &Ident)
        requires
            old(self).wf(),
        ensures
            final(self).wf(),
            final(self).vars_model() == old(self).vars_model().remove(id@),
            final(self).funs_model() == old(self).funs_model().remove(id@),
            final(self).rng_state() == old(self).rng_state(),
    {
        vars_del(&mut self.vars, id);
        funs_del(&mut self.funs, id);
    }

    /// Resets the environment to its empty initial state; the dice-roll
    /// stream keeps its position.
    pub fn clear(&mut self)
        ensures
            final(self).wf(),
            final(self).vars_model() == Map::<Seq<char>, ValModel>::empty(),
            final(self).funs_model() == Map::<Seq<char>, RollerFun>::empty(),
            final(self).rng_state() == old(self).rng_state(),
    {
        self.vars.clear();
        self.funs.clear();
    }
}

} // verus!
