use vstd::prelude::*;

use crate::codec::luma_decoding;
use crate::document::{document_markup, document_prefix, document_suffix};
use crate::state::{
    closed_classes, opened_classes, spec_insert_all, spec_insert_reader, spec_loaded,
    spec_remove_reader, spec_toggle, toggle_classes,
    AppView, FileView,
};

verus! {

/// No name appears twice among the tracked in-flight reads.
pub open spec fn distinct_names(readers: Seq<Seq<char>>) -> bool {
    forall|i: int, j: int| 0 <= i < j < readers.len() ==> readers[i] != readers[j]
}

/// At most one in-flight read is ever tracked per name: recording a submission
/// keeps the tracked names pairwise distinct, because a name already being
/// read keeps its single tracking slot.
pub proof fn lemma_insert_keeps_names_distinct(readers: Seq<Seq<char>>, name: Seq<char>)
    requires
        distinct_names(readers),
    ensures
        distinct_names(spec_insert_reader(readers, name)),
{
}

/// Releasing a completed read's tracking slot keeps the tracked names
/// pairwise distinct.
pub proof fn lemma_remove_keeps_names_distinct(readers: Seq<Seq<char>>, name: Seq<char>)
    requires
        distinct_names(readers),
    ensures
        distinct_names(spec_remove_reader(readers, name)),
{
}

/// Recording a whole batch of submissions keeps the tracked names pairwise
/// distinct.
pub proof fn lemma_insert_all_keeps_names_distinct(
    readers: Seq<Seq<char>>,
    names: Seq<Seq<char>>,
)
    requires
        distinct_names(readers),
    ensures
        distinct_names(spec_insert_all(readers, names)),
    decreases names.len(),
{
    if names.len() > 0 {
        lemma_insert_keeps_names_distinct(readers, names[0]);
        lemma_insert_all_keeps_names_distinct(
            spec_insert_reader(readers, names[0]),
            names.skip(1),
        );
    }
}

/// The state after a sequence of completed reads, first to last.
pub open spec fn apply_loads(s: AppView, loads: Seq<FileView>) -> AppView
    decreases loads.len(),
{
    if loads.len() == 0 {
        s
    } else {
        apply_loads(spec_loaded(s, loads[0]), loads.skip(1))
    }
}

/// Every completed read appends exactly one file, so any sequence of
/// completions grows the file list by its length — whatever the names and
/// whatever the completion order.
pub proof fn lemma_loads_extend_files(s: AppView, loads: Seq<FileView>)
    ensures
        apply_loads(s, loads).files.len() == s.files.len() + loads.len(),
    decreases loads.len(),
{
    if loads.len() > 0 {
        lemma_loads_extend_files(spec_loaded(s, loads[0]), loads.skip(1));
    }
}

/// Submitting a batch of files with pairwise distinct names into a state with
/// no ingested files and then completing one read per file, in any order,
/// leaves exactly one file per submitted name in the list.
pub proof fn lemma_ingestion_completes(s0: AppView, names: Seq<Seq<char>>, loads: Seq<FileView>)
    requires
        s0.files.len() == 0,
        distinct_names(names),
        loads.len() == names.len(),
    ensures
        apply_loads(
            AppView { readers: spec_insert_all(s0.readers, names), files: s0.files, open: s0.open },
            loads,
        ).files.len() == names.len(),
{
    lemma_loads_extend_files(
        AppView { readers: spec_insert_all(s0.readers, names), files: s0.files, open: s0.open },
        loads,
    );
}

/// Two completed reads under one name still append two separate entries: files
/// are never merged or de-duplicated by name.
pub proof fn lemma_duplicate_names_kept(s: AppView, f1: FileView, f2: FileView)
    requires
        f1.name == f2.name,
    ensures
        spec_loaded(spec_loaded(s, f1), f2).files.len() == s.files.len() + 2,
        spec_loaded(spec_loaded(s, f1), f2).files[s.files.len() as int] == f1,
        spec_loaded(spec_loaded(s, f1), f2).files[s.files.len() as int + 1] == f2,
{
}

/// The library's half of generation determinism: what is handed to the pattern
/// generator — the decoded luma image — is a function of the first ingested
/// file's bytes alone, and the final document is a function of the serialized
/// shape tree alone. The remaining leg, that the generator's shape tree is a
/// function of the sampled pixels and the configuration, belongs to the
/// generator itself.
pub proof fn lemma_generation_deterministic(
    s1: AppView,
    s2: AppView,
    frag1: Seq<char>,
    frag2: Seq<char>,
)
    requires
        s1.files.len() > 0,
        s2.files.len() > 0,
        s1.files[0].data == s2.files[0].data,
        frag1 == frag2,
    ensures
        luma_decoding(s1.files[0].data) == luma_decoding(s2.files[0].data),
        document_markup(frag1) == document_markup(frag2),
{
}

/// Whatever shape tree the generator produced, the output document opens with
/// the fixed 500 x 500 root and the group scaled by 10 in both axes, and ends
/// by closing exactly those two elements.
pub proof fn lemma_document_fixed_frame(fragment: Seq<char>)
    ensures
        document_markup(fragment).len() == document_prefix().len() + fragment.len()
            + document_suffix().len(),
        document_markup(fragment).take(document_prefix().len() as int) == document_prefix(),
        document_markup(fragment).skip(
            document_prefix().len() + fragment.len() as int,
        ) == document_suffix(),
{
    assert(document_markup(fragment).take(document_prefix().len() as int)
        =~= document_prefix());
    assert(document_markup(fragment).skip(document_prefix().len() + fragment.len() as int)
        =~= document_suffix());
}

/// The panel flag after a number of toggles.
pub open spec fn apply_toggles(s: AppView, n: nat) -> AppView
    decreases n,
{
    if n == 0 {
        s
    } else {
        spec_toggle(apply_toggles(s, (n - 1) as nat))
    }
}

/// From a freshly created state the panel flag alternates: after n toggles it
/// stands open exactly when n is odd.
pub proof fn lemma_toggle_alternation(s: AppView, n: nat)
    requires
        !s.open,
    ensures
        apply_toggles(s, n).open == (n % 2 == 1),
    decreases n,
{
    if n > 0 {
        lemma_toggle_alternation(s, (n - 1) as nat);
    }
}

/// The class set the n-th toggle (counting from one) applies, starting from a
/// freshly created state: the "hidden" set when n is odd and the visible set
/// when n is even — the applied set is chosen by the flag before the flip, so
/// it lags the flag by one step.
pub proof fn lemma_toggle_class_parity(s: AppView, n: nat)
    requires
        !s.open,
        n >= 1,
    ensures
        toggle_classes(apply_toggles(s, (n - 1) as nat)) == (if n % 2 == 1 {
            closed_classes()
        } else {
            opened_classes()
        }),
{
    lemma_toggle_alternation(s, (n - 1) as nat);
}

} // verus!
