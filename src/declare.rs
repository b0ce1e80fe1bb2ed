use vstd::prelude::*;

use crate::constants::MYSQL_PLUGIN_INTERFACE_VERSION;
use crate::types::Plugin;

verus! {

/// Why a list of descriptors cannot become a table.
#[derive(PartialEq, Eq, Structural, Clone, Copy, Debug)]
pub enum DeclareError {
    /// No descriptor was given.
    Empty,
    /// The descriptor at this index is all zero: the loader would take it
    /// for the end of the table and drop it and every later descriptor.
    SentinelEntry(usize),
    /// The size of one descriptor does not fit the 32-bit size symbol.
    RecordTooLarge,
}

/// The table of declared plugins: the given descriptors followed by the
/// all-zero one.
pub open spec fn assembled<'a, F>(plugins: Seq<Plugin<'a, F>>) -> Seq<Plugin<'a, F>> {
    plugins.push(Plugin::spec_zero())
}

/// Whether some descriptor of the list is all zero.
pub open spec fn has_sentinel<'a, F>(plugins: Seq<Plugin<'a, F>>) -> bool {
    exists|i: int| 0 <= i < plugins.len() && (#[trigger] plugins[i]).spec_is_zero()
}

/// The shape the loader needs: at least one descriptor, then the all-zero
/// one as the last element and nowhere before it.
pub open spec fn is_table<'a, F>(decls: Seq<Plugin<'a, F>>) -> bool {
    &&& decls.len() >= 2
    &&& decls.last().spec_is_zero()
    &&& forall|i: int| 0 <= i < decls.len() - 1 ==> !(#[trigger] decls[i]).spec_is_zero()
}

/// The descriptors the loader takes from a table: those before the first
/// all-zero one.
pub open spec fn loaded<'a, F>(decls: Seq<Plugin<'a, F>>) -> Seq<Plugin<'a, F>>
    decreases decls.len(),
{
    if decls.len() == 0 || decls[0].spec_is_zero() {
        Seq::empty()
    } else {
        seq![decls[0]].add(loaded(decls.subrange(1, decls.len() as int)))
    }
}

/// The exported plugin table: the loader interface revision, the size of
/// one descriptor, and the descriptors, ended by the all-zero one.
///
/// A table is never written after it is made, so any number of threads may
/// read it at once.
pub struct PluginTable<'a, F> {
    declarations: Vec<Plugin<'a, F>>,
    sizeof_struct: i32,
}

impl<'a, F> View for PluginTable<'a, F> {
    type V = Seq<Plugin<'a, F>>;

    closed spec fn view(&self) -> Seq<Plugin<'a, F>> {
        self.declarations@
    }
}

impl<'a, F> PluginTable<'a, F> {
    #[verifier::type_invariant]
    spec fn inv(self) -> bool {
        &&& is_table(self.declarations@)
        &&& self.sizeof_struct as int == vstd::layout::size_of::<Plugin<'a, F>>()
    }

    /// Assembles the table from the given descriptors, in the given order.
    ///
    /// Fails on an empty list, on a descriptor that is all zero (the first
    /// such index is reported), and where one descriptor's size does not fit
    /// in an `i32`, in that order.
    pub fn declare(plugins: Vec<Plugin<'a, F>>) -> (r: Result<Self, DeclareError>)
        ensures
            (r == Err::<Self, DeclareError>(DeclareError::Empty)) <==> plugins@.len() == 0,
            r matches Err(DeclareError::SentinelEntry(_)) <==> (plugins@.len() > 0
                && has_sentinel(plugins@)),
            r matches Err(DeclareError::SentinelEntry(i)) ==> (i < plugins@.len()
                && plugins@[i as int].spec_is_zero() && forall|j: int|
                0 <= j < i ==> !(#[trigger] plugins@[j]).spec_is_zero()),
            (r == Err::<Self, DeclareError>(DeclareError::RecordTooLarge)) <==> (plugins@.len()
                > 0 && !has_sentinel(plugins@) && vstd::layout::size_of::<Plugin<'a, F>>()
                > i32::MAX),
            r is Ok <==> (plugins@.len() > 0 && !has_sentinel(plugins@)
                && vstd::layout::size_of::<Plugin<'a, F>>() <= i32::MAX),
            r matches Ok(t) ==> t@ == assembled(plugins@),
    {
        if plugins.len() == 0 {
            return Err(DeclareError::Empty);
        }
        let mut i: usize = 0;
        while i < plugins.len()
            invariant
                0 <= i <= plugins@.len(),
                forall|j: int| 0 <= j < i ==> !(#[trigger] plugins@[j]).spec_is_zero(),
            decreases plugins@.len() - i,
        {
            if plugins[i].is_zero() {
                return Err(DeclareError::SentinelEntry(i));
            }
            i = i + 1;
        }
        let size = core::mem::size_of::<Plugin<'a, F>>();
        if size > i32::MAX as usize {
            return Err(DeclareError::RecordTooLarge);
        }
        let mut declarations = plugins;
        declarations.push(Plugin::zero());
        Ok(PluginTable { declarations, sizeof_struct: size as i32 })
    }

    /// The loader interface revision the table is stamped with.
    pub fn interface_version(&self) -> (r: i32)
        ensures
            r == MYSQL_PLUGIN_INTERFACE_VERSION,
    {
        MYSQL_PLUGIN_INTERFACE_VERSION
    }

    /// The size in bytes of one descriptor record.
    pub fn sizeof_struct(&self) -> (r: i32)
        ensures
            r as int == vstd::layout::size_of::<Plugin<'a, F>>(),
    {
        proof {
            use_type_invariant(self);
        }
        self.sizeof_struct
    }

    /// The descriptors, the all-zero one last and nowhere before it.
    pub fn declarations(&self) -> (r: &[Plugin<'a, F>])
        ensures
            r@ == self@,
            is_table(self@),
    {
        proof {
            use_type_invariant(self);
        }
        self.declarations.as_slice()
    }

    /// The number of declared plugins: the table's length less the sentinel.
    pub fn plugin_count(&self) -> (r: usize)
        ensures
            r == self@.len() - 1,
    {
        proof {
            use_type_invariant(self);
        }
        self.declarations.len() - 1
    }

    /// The descriptor at index `i`.
    pub fn get(&self, i: usize) -> (r: &Plugin<'a, F>)
        requires
            i < self@.len(),
        ensures
            *r == self@[i as int],
    {
        &self.declarations[i]
    }
}

} // verus!

verus! {

/// A table assembled from N descriptors has N + 1 elements: the N
/// descriptors unchanged and in their order, then the all-zero descriptor.
pub proof fn lemma_table_layout<'a, F>(plugins: Seq<Plugin<'a, F>>)
    ensures
        assembled(plugins).len() == plugins.len() + 1,
        assembled(plugins)[plugins.len() as int] == Plugin::<'a, F>::spec_zero(),
        forall|i: int| 0 <= i < plugins.len() ==> #[trigger] assembled(plugins)[i] == plugins[i],
        plugins.len() > 0 && !has_sentinel(plugins) ==> is_table(assembled(plugins)),
{
}

/// When no given descriptor is all zero, the loader reads back from the
/// assembled table exactly the given descriptors, none dropped.
pub proof fn lemma_loader_reads_all<'a, F>(plugins: Seq<Plugin<'a, F>>)
    requires
        !has_sentinel(plugins),
    ensures
        loaded(assembled(plugins)) == plugins,
    decreases plugins.len(),
{
    let t = assembled(plugins);
    if plugins.len() == 0 {
        assert(t[0].spec_is_zero());
    } else {
        let rest = plugins.subrange(1, plugins.len() as int);
        assert(!t[0].spec_is_zero()) by {
            assert(plugins[0] == t[0]);
        }
        assert forall|i: int| 0 <= i < rest.len() implies !(#[trigger] rest[i]).spec_is_zero() by {
            assert(rest[i] == plugins[i + 1]);
        }
        lemma_loader_reads_all(rest);
        assert(t.subrange(1, t.len() as int) =~= assembled(rest));
        assert(seq![plugins[0]].add(rest) =~= plugins);
    }
}

} // verus!
