use vstd::prelude::*;

verus! {

/// `n` is the position of the first null word of `words`: the entries before it are the
/// methods of a null-terminated table.
pub open spec fn is_table_end(words: Seq<usize>, n: int) -> bool {
    &&& 0 <= n < words.len()
    &&& words[n] == 0
    &&& forall|i: int| 0 <= i < n ==> words[i] != 0
}

/// `words` holds a null sentinel somewhere.
pub open spec fn has_null(words: Seq<usize>) -> bool {
    exists|i: int| 0 <= i < words.len() && words[i] == 0
}

/// The entries of the null-terminated table whose words, through the sentinel, are `words`.
pub open spec fn null_terminated_entries(words: Seq<usize>) -> Seq<usize> {
    words.take(choose|n: int| is_table_end(words, n))
}

/// A run of words has at most one table end: its first null word.
pub proof fn lemma_table_end_unique(words: Seq<usize>, m: int, n: int)
    requires
        is_table_end(words, m),
        is_table_end(words, n),
    ensures
        m == n,
{
    if m < n {
        assert(words[m] != 0);
    } else if n < m {
        assert(words[n] != 0);
    }
}

/// Copies the first `n` words of `words`.
pub(crate) fn copy_prefix(words: &[usize], n: usize) -> (out: Vec<usize>)
    requires
        n <= words@.len(),
    ensures
        out@ == words@.take(n as int),
{
    let mut out: Vec<usize> = Vec::new();
    let mut i: usize = 0;
    while i < n
        invariant
            n <= words@.len(),
            i <= n,
            out@ == words@.take(i as int),
        decreases n - i,
    {
        out.push(words[i]);
        i = i + 1;
        assert(out@ =~= words@.take(i as int));
    }
    out
}

/// A snapshot of a virtual table: the address of its first entry and its entries, each
/// entry being the address of a method.
///
/// A table is made either from a null-terminated run of words (`new`) or from a known
/// number of entries (`new_with_size`).
#[derive(Debug, Clone)]
pub struct VTable {
    begin: usize,
    methods: Vec<usize>,
}

impl VTable {
    /// Address of the first entry.
    pub closed spec fn spec_begin(&self) -> usize {
        self.begin
    }

    /// The entries of the table, in order.
    pub closed spec fn spec_methods(&self) -> Seq<usize> {
        self.methods@
    }

    /// Number of entries.
    pub open spec fn spec_size(&self) -> nat {
        self.spec_methods().len()
    }

    /// A table at `begin` whose entries are the words of `words` before its first null
    /// word; `words` holds what was read from `begin` on, through the sentinel.
    pub fn new(begin: usize, words: &[usize]) -> (table: VTable)
        requires
            has_null(words@),
        ensures
            table.spec_begin() == begin,
            is_table_end(words@, table.spec_size() as int),
            table.spec_methods() == words@.take(table.spec_size() as int),
            table.spec_methods() == null_terminated_entries(words@),
    {
        let size: usize = Self::count_methods_raw(words);
        proof {
            let n = choose|n: int| is_table_end(words@, n);
            lemma_table_end_unique(words@, n, size as int);
        }
        Self::new_with_size(begin, size, words)
    }

    /// A table at `begin` with `size` entries, the first `size` words of `words`.
    pub fn new_with_size(begin: usize, size: usize, words: &[usize]) -> (table: VTable)
        requires
            size <= words@.len(),
        ensures
            table.spec_begin() == begin,
            table.spec_size() == size,
            table.spec_methods() == words@.take(size as int),
    {
        VTable { begin, methods: copy_prefix(words, size) }
    }

    /// Counts the entries of a null-terminated table, given the words read from its
    /// start up to and including the sentinel.
    pub fn count_methods_raw(words: &[usize]) -> (n: usize)
        requires
            has_null(words@),
        ensures
            is_table_end(words@, n as int),
    {
        let mut n: usize = 0;
        while words[n] != 0
            invariant
                has_null(words@),
                0 <= n < words@.len(),
                forall|i: int| 0 <= i < n ==> words@[i] != 0,
            decreases words@.len() - n,
        {
            n = n + 1;
        }
        n
    }

    /// The entries of the table.
    pub fn as_slice(&self) -> (entries: &[usize])
        ensures
            entries@ == self.spec_methods(),
    {
        self.methods.as_slice()
    }

    /// Address of the first entry.
    #[verifier::when_used_as_spec(spec_begin)]
    pub fn begin(&self) -> (begin: usize)
        ensures
            begin == self.spec_begin(),
    {
        self.begin
    }

    /// Number of entries.
    pub fn size(&self) -> (size: usize)
        ensures
            size == self.spec_size(),
    {
        self.methods.len()
    }

    /// The entry at `index`.
    pub fn method(&self, index: usize) -> (method: usize)
        requires
            index < self.spec_size(),
        ensures
            method == self.spec_methods()[index as int],
    {
        self.methods[index]
    }

    /// Takes the entries anew from `words`, read again from the table's start.
    pub(crate) fn reload(&mut self, words: &[usize])
        ensures
            final(self).spec_begin() == old(self).spec_begin(),
            final(self).spec_methods() == words@,
    {
        self.methods = copy_prefix(words, words.len());
        assert(words@.take(words@.len() as int) =~= words@);
    }
}

} // verus!
