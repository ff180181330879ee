//! The WQL notification query of a subscription.

use vstd::prelude::*;

use crate::text::{
    free_of, join_with, law_join_undoes_split, law_split_undoes_join, lemma_split_after,
    lemma_split_free, split, split_at, texts,
};

verus! {

/// Which process events a subscription asks for.
#[derive(Debug, Clone, Copy, PartialEq, Eq, Structural)]
pub enum QueryKind {
    Creation,
    Deletion,
    Operation,
}

/// What a subscription asks for.
#[derive(Debug, Clone)]
pub struct QueryOptions {
    pub kind: QueryKind,
    pub filter_windows_noise: bool,
    pub filter_usual_program_locations: bool,
    pub whitelist: bool,
    /// Comma separated process names.
    pub filter: String,
}

/// Leaves out the processes of the system directories and of OneDrive. No blank stands between
/// a closing quote and the `AND` after it.
pub const FILTER_WINDOWS_NOISE: &'static str =
    " AND NOT TargetInstance.ExecutablePath LIKE '%Windows\\\\System32%'AND NOT TargetInstance.ExecutablePath LIKE '%Windows\\\\SysWOW64%'AND TargetInstance.Name != 'FileCoAuth.exe'";

/// Leaves out the processes of the directories that programs are usually installed in. No blank
/// stands between a closing quote and the `AND` after it.
pub const FILTER_USUAL_PROGRAM_LOCATIONS: &'static str =
    " AND NOT TargetInstance.ExecutablePath LIKE '%Program Files%'AND NOT TargetInstance.ExecutablePath LIKE '%Program Files (x86)%'AND NOT TargetInstance.ExecutablePath LIKE '%AppData\\\\Local%'AND NOT TargetInstance.ExecutablePath LIKE '%AppData\\\\Roaming%'";

impl QueryKind {
    /// The WMI event class that a subscription of this kind selects from.
    pub open spec fn source_text(self) -> Seq<char> {
        match self {
            QueryKind::Creation => "__InstanceCreationEvent"@,
            QueryKind::Deletion => "__InstanceDeletionEvent"@,
            QueryKind::Operation => "__InstanceOperationEvent"@,
        }
    }

    /// Whether a subscription of this kind reports process creations.
    pub open spec fn covers_creation(self) -> bool {
        self != QueryKind::Deletion
    }

    /// Whether a subscription of this kind reports process deletions.
    pub open spec fn covers_deletion(self) -> bool {
        self != QueryKind::Creation
    }
}

/// The query of a subscription without any filter.
pub open spec fn base_text(kind: QueryKind) -> Seq<char> {
    "SELECT * FROM "@ + kind.source_text()
        + " WITHIN 1 WHERE TargetInstance ISA 'Win32_Process'"@
}

/// `clause` where it is asked for, else nothing.
pub open spec fn optional_text(asked: bool, clause: Seq<char>) -> Seq<char> {
    if asked {
        clause
    } else {
        Seq::empty()
    }
}

/// The alternatives of a whitelist, still without the closing parenthesis.
pub open spec fn alternatives_text(names: Seq<Seq<char>>) -> Seq<char>
    decreases names.len(),
{
    if names.len() == 0 {
        Seq::empty()
    } else {
        alternatives_text(names.drop_last()) + (if names.len() == 1 {
            " AND ( TargetInstance.Name = '"@
        } else {
            " OR TargetInstance.Name = '"@
        }) + names.last() + "'"@
    }
}

/// One exclusion for each name of a blacklist.
pub open spec fn exclusions_text(names: Seq<Seq<char>>) -> Seq<char>
    decreases names.len(),
{
    if names.len() == 0 {
        Seq::empty()
    } else {
        exclusions_text(names.drop_last()) + " AND TargetInstance.Name != '"@ + names.last()
            + "'"@
    }
}

/// The clause that keeps the named processes only, or that leaves them out.
pub open spec fn names_text(names: Seq<Seq<char>>, whitelist: bool) -> Seq<char> {
    if whitelist {
        alternatives_text(names) + " )"@
    } else {
        exclusions_text(names)
    }
}

/// The clause of a comma separated list of process names. An empty list asks for nothing.
pub open spec fn filter_text(filter: Seq<char>, whitelist: bool) -> Seq<char> {
    if filter.len() == 0 {
        Seq::empty()
    } else {
        names_text(split_at(filter, ','), whitelist)
    }
}

/// The query of a subscription.
pub open spec fn query_text(options: QueryOptions) -> Seq<char> {
    base_text(options.kind)
        + optional_text(options.filter_windows_noise, FILTER_WINDOWS_NOISE@)
        + optional_text(options.filter_usual_program_locations, FILTER_USUAL_PROGRAM_LOCATIONS@)
        + filter_text(options.filter@, options.whitelist)
}

/// What a caller is told who subscribes to nothing.
pub open spec fn no_event_text() -> Seq<char> {
    "You must subscribe to at least one event"@
}

/// The options of a subscription, as its caller gives them. A subscription must ask for
/// creations, deletions or both.
pub fn query_options(
    creation: bool,
    deletion: bool,
    filter_windows_noise: bool,
    filter_usual_program_locations: bool,
    whitelist: bool,
    filter: String,
) -> (result: Result<QueryOptions, String>)
    ensures
        match result {
            Ok(options) => {
                &&& creation || deletion
                &&& options.kind.covers_creation() == creation
                &&& options.kind.covers_deletion() == deletion
                &&& options.filter_windows_noise == filter_windows_noise
                &&& options.filter_usual_program_locations == filter_usual_program_locations
                &&& options.whitelist == whitelist
                &&& options.filter == filter
            },
            Err(message) => !creation && !deletion && message@ == no_event_text(),
        },
{
    let kind = match (creation, deletion) {
        (true, true) => QueryKind::Operation,
        (true, false) => QueryKind::Creation,
        (false, true) => QueryKind::Deletion,
        (false, false) => return Err("You must subscribe to at least one event".to_owned()),
    };
    Ok(
        QueryOptions {
            kind,
            filter_windows_noise,
            filter_usual_program_locations,
            whitelist,
            filter,
        },
    )
}

/// Writes the notification query of a subscription. The process names go into it as they stand
/// in the list: they are neither trimmed nor escaped.
pub fn build_query(options: &QueryOptions) -> (query: String)
    ensures
        query@ == query_text(*options),
{
    let source = match options.kind {
        QueryKind::Creation => "__InstanceCreationEvent",
        QueryKind::Deletion => "__InstanceDeletionEvent",
        QueryKind::Operation => "__InstanceOperationEvent",
    };
    let mut query = String::new();
    query.append("SELECT * FROM ");
    query.append(source);
    query.append(" WITHIN 1 WHERE TargetInstance ISA 'Win32_Process'");
    assert(query@ =~= base_text(options.kind));

    if options.filter_windows_noise {
        query.append(FILTER_WINDOWS_NOISE);
    }
    if options.filter_usual_program_locations {
        query.append(FILTER_USUAL_PROGRAM_LOCATIONS);
    }
    let ghost head = query@;
    assert(head =~= base_text(options.kind) + optional_text(
        options.filter_windows_noise,
        FILTER_WINDOWS_NOISE@,
    ) + optional_text(options.filter_usual_program_locations, FILTER_USUAL_PROGRAM_LOCATIONS@));

    if !options.filter.as_str().is_empty() {
        let names = split(options.filter.as_str(), ',');
        let ghost written = texts(names@);
        assert(written.take(0) =~= Seq::empty());
        if options.whitelist {
            for i in 0..names.len()
                invariant
                    written == texts(names@),
                    query@ =~= head + alternatives_text(written.take(i as int)),
            {
                query.append(
                    if i == 0 {
                        " AND ( TargetInstance.Name = '"
                    } else {
                        " OR TargetInstance.Name = '"
                    },
                );
                query.append(names[i].as_str());
                query.append("'");
                assert(written.take(i + 1).drop_last() =~= written.take(i as int));
            }
            query.append(" )");
        } else {
            for i in 0..names.len()
                invariant
                    written == texts(names@),
                    query@ =~= head + exclusions_text(written.take(i as int)),
            {
                query.append(" AND TargetInstance.Name != '");
                query.append(names[i].as_str());
                query.append("'");
                assert(written.take(i + 1).drop_last() =~= written.take(i as int));
            }
        }
        assert(written.take(names@.len() as int) =~= written);
    }
    assert(query@ =~= query_text(*options));
    query
}

/// Names that hold no comma can be given in one list: joined by commas, they are filtered by
/// exactly as they stand.
pub proof fn law_filter_means_its_names(names: Seq<Seq<char>>, whitelist: bool)
    requires
        names.len() >= 1,
        forall|i: int| 0 <= i < names.len() ==> free_of(#[trigger] names[i], ','),
        join_with(names, ',').len() > 0,
    ensures
        filter_text(join_with(names, ','), whitelist) == names_text(names, whitelist),
{
    law_split_undoes_join(names, ',');
}

/// Filters only add to a query: it starts with the query of the same events without filters.
pub proof fn law_filters_extend_the_query(options: QueryOptions)
    ensures
        base_text(options.kind).is_prefix_of(query_text(options)),
{
    let base = base_text(options.kind);
    assert(query_text(options).take(base.len() as int) =~= base);
}

/// Without names to filter by, it makes no difference whether they would be let in or left out.
pub proof fn law_empty_filter_is_no_filter(options: QueryOptions, other: QueryOptions)
    requires
        options.filter@.len() == 0,
        other == (QueryOptions { whitelist: !options.whitelist, ..options }),
    ensures
        query_text(options) == query_text(other),
{
}

/// The options of a subscription determine the flags that it was asked for with: no two
/// different choices of events become the same query kind.
pub proof fn law_kind_tells_the_flags(kind: QueryKind, other: QueryKind)
    requires
        kind.covers_creation() == other.covers_creation(),
        kind.covers_deletion() == other.covers_deletion(),
    ensures
        kind == other,
        kind.covers_creation() || kind.covers_deletion(),
{
}

/// Subscriptions of different kinds never have the same query, whatever their filters.
pub proof fn law_queries_tell_the_kind(options: QueryOptions, other: QueryOptions)
    requires
        query_text(options) == query_text(other),
    ensures
        options.kind == other.kind,
{
    lemma_kind_letter(options);
    lemma_kind_letter(other);
}

proof fn lemma_kind_letter(options: QueryOptions)
    ensures
        query_text(options).len() > 24,
        query_text(options)[24] == (match options.kind {
            QueryKind::Creation => 'C',
            QueryKind::Deletion => 'D',
            QueryKind::Operation => 'O',
        }),
{
    reveal_strlit("SELECT * FROM ");
    reveal_strlit("__InstanceCreationEvent");
    reveal_strlit("__InstanceDeletionEvent");
    reveal_strlit("__InstanceOperationEvent");
    let source = options.kind.source_text();
    assert(source[10] == (match options.kind {
        QueryKind::Creation => 'C',
        QueryKind::Deletion => 'D',
        QueryKind::Operation => 'O',
    }));
    assert(("SELECT * FROM "@ + source)[24] == source[10]);
    assert(base_text(options.kind)[24] == source[10]);
    law_filters_extend_the_query(options);
    assert(query_text(options)[24] == base_text(options.kind)[24]);
}

/// What a subscriber asks for is what the options say: the events, each filter, and the list of
/// names as it stands. Only who asks for no event at all is refused.
pub proof fn law_options_say_what_was_asked(
    creation: bool,
    deletion: bool,
    noise: bool,
    locations: bool,
    whitelist: bool,
    filter: String,
    result: Result<QueryOptions, String>,
)
    requires
        call_ensures(
            query_options,
            (creation, deletion, noise, locations, whitelist, filter),
            result,
        ),
    ensures
        result is Ok <==> creation || deletion,
        result matches Err(message) ==> message@ == "You must subscribe to at least one event"@,
        result matches Ok(options) ==> {
            &&& options.kind == QueryKind::Operation <==> creation && deletion
            &&& options.kind == QueryKind::Creation <==> creation && !deletion
            &&& options.kind == QueryKind::Deletion <==> !creation && deletion
            &&& options.filter_windows_noise == noise
            &&& options.filter_usual_program_locations == locations
            &&& options.whitelist == whitelist
            &&& options.filter@ == filter@
        },
{
}

/// Without filters the query selects the processes among the events of one class, and of
/// another class for each kind.
pub proof fn law_query_without_filters(options: QueryOptions, query: String)
    requires
        call_ensures(build_query, (&options,), query),
        !options.filter_windows_noise,
        !options.filter_usual_program_locations,
        options.filter@.len() == 0,
    ensures
        query@ == "SELECT * FROM "@ + (match options.kind {
            QueryKind::Creation => "__InstanceCreationEvent"@,
            QueryKind::Deletion => "__InstanceDeletionEvent"@,
            QueryKind::Operation => "__InstanceOperationEvent"@,
        }) + " WITHIN 1 WHERE TargetInstance ISA 'Win32_Process'"@,
{
    assert(query@ =~= base_text(options.kind));
}

/// Leaving out the noise puts one clause right behind the query without filters, and changes
/// nothing else.
pub proof fn law_noise_clause(
    without: QueryOptions,
    with: QueryOptions,
    plain: QueryOptions,
    without_query: String,
    with_query: String,
    plain_query: String,
)
    requires
        call_ensures(build_query, (&without,), without_query),
        call_ensures(build_query, (&with,), with_query),
        call_ensures(build_query, (&plain,), plain_query),
        !without.filter_windows_noise,
        with == (QueryOptions { filter_windows_noise: true, ..without }),
        plain.kind == without.kind,
        !plain.filter_windows_noise,
        !plain.filter_usual_program_locations,
        plain.filter@.len() == 0,
    ensures
        ({
            let rest = without_query@.skip(plain_query@.len() as int);
            &&& without_query@ == plain_query@ + rest
            &&& with_query@ == plain_query@ + FILTER_WINDOWS_NOISE@ + rest
        }),
{
    let base = base_text(without.kind);
    let rest = without_query@.skip(base.len() as int);
    assert(plain_query@ =~= base);
    assert(without_query@ =~= base + rest);
    assert(with_query@ =~= base + FILTER_WINDOWS_NOISE@ + rest);
}

/// Leaving out the usual locations puts one clause behind what stands before the names, and
/// changes nothing else.
pub proof fn law_locations_clause(
    without: QueryOptions,
    with: QueryOptions,
    head: QueryOptions,
    without_query: String,
    with_query: String,
    head_query: String,
)
    requires
        call_ensures(build_query, (&without,), without_query),
        call_ensures(build_query, (&with,), with_query),
        call_ensures(build_query, (&head,), head_query),
        !without.filter_usual_program_locations,
        with == (QueryOptions { filter_usual_program_locations: true, ..without }),
        head.kind == without.kind,
        head.filter_windows_noise == without.filter_windows_noise,
        !head.filter_usual_program_locations,
        head.filter@.len() == 0,
    ensures
        ({
            let rest = without_query@.skip(head_query@.len() as int);
            &&& without_query@ == head_query@ + rest
            &&& with_query@ == head_query@ + FILTER_USUAL_PROGRAM_LOCATIONS@ + rest
        }),
{
    lemma_head_and_names(without);
    lemma_head_and_names(with);
    lemma_head_and_names(head);
    let rest = without_query@.skip(head_query@.len() as int);
    assert(head_text(head) =~= head_query@);
    assert(head_text(head) =~= head_text(without));
    assert(head_text(with) =~= head_text(without) + FILTER_USUAL_PROGRAM_LOCATIONS@);
    assert(rest =~= filter_text(without.filter@, without.whitelist));
    assert(with_query@ =~= head_query@ + FILTER_USUAL_PROGRAM_LOCATIONS@ + rest);
    assert(without_query@ =~= head_query@ + rest);
}

/// The names clause depends on the names and on whether they are let in or left out, and on
/// nothing else: whatever the kinds and the built-in filters of two subscriptions are, with the
/// same names the same text is put behind what stands without names.
pub proof fn law_names_clause_depends_on_names_only(
    options: QueryOptions,
    other: QueryOptions,
    nameless: QueryOptions,
    other_nameless: QueryOptions,
    query: String,
    other_query: String,
    nameless_query: String,
    other_nameless_query: String,
)
    requires
        call_ensures(build_query, (&options,), query),
        call_ensures(build_query, (&other,), other_query),
        call_ensures(build_query, (&nameless,), nameless_query),
        call_ensures(build_query, (&other_nameless,), other_nameless_query),
        options.filter@ == other.filter@,
        options.whitelist == other.whitelist,
        nameless == (QueryOptions { filter: nameless.filter, ..options }),
        other_nameless == (QueryOptions { filter: other_nameless.filter, ..other }),
        nameless.filter@.len() == 0,
        other_nameless.filter@.len() == 0,
    ensures
        query@ == nameless_query@ + query@.skip(nameless_query@.len() as int),
        other_query@ == other_nameless_query@ + query@.skip(nameless_query@.len() as int),
{
    lemma_head_and_names(options);
    lemma_head_and_names(other);
    lemma_head_and_names(nameless);
    lemma_head_and_names(other_nameless);
    let clause = filter_text(options.filter@, options.whitelist);
    assert(nameless_query@ =~= head_text(options));
    assert(other_nameless_query@ =~= head_text(other));
    assert(query@.skip(nameless_query@.len() as int) =~= clause);
    assert(query@ =~= nameless_query@ + clause);
    assert(other_query@ =~= other_nameless_query@ + clause);
}

/// Where there are names, the query ends with the clause of the names between the commas: one
/// that lets them in for a whitelist, one that leaves them out else, for subscriptions of every
/// kind and with any built-in filters.
pub proof fn law_names_end_the_query(
    options: QueryOptions,
    nameless: QueryOptions,
    query: String,
    nameless_query: String,
)
    requires
        call_ensures(build_query, (&options,), query),
        call_ensures(build_query, (&nameless,), nameless_query),
        nameless == (QueryOptions { filter: nameless.filter, ..options }),
        nameless.filter@.len() == 0,
        options.filter@.len() > 0,
    ensures
        options.whitelist ==> query@ == nameless_query@ + names_text(
            split_at(options.filter@, ','),
            true,
        ),
        !options.whitelist ==> query@ == nameless_query@ + names_text(
            split_at(options.filter@, ','),
            false,
        ),
{
    lemma_head_and_names(options);
    lemma_head_and_names(nameless);
    assert(nameless_query@ =~= head_text(options));
}

/// Two subscriptions that differ in their kind alone have the same text behind their queries
/// without filters.
pub proof fn law_kind_changes_the_class_only(
    options: QueryOptions,
    other: QueryOptions,
    plain: QueryOptions,
    other_plain: QueryOptions,
    query: String,
    other_query: String,
    plain_query: String,
    other_plain_query: String,
)
    requires
        call_ensures(build_query, (&options,), query),
        call_ensures(build_query, (&other,), other_query),
        call_ensures(build_query, (&plain,), plain_query),
        call_ensures(build_query, (&other_plain,), other_plain_query),
        other == (QueryOptions { kind: other.kind, ..options }),
        plain.kind == options.kind,
        !plain.filter_windows_noise,
        !plain.filter_usual_program_locations,
        plain.filter@.len() == 0,
        other_plain == (QueryOptions { kind: other.kind, ..plain }),
    ensures
        query@ == plain_query@ + query@.skip(plain_query@.len() as int),
        other_query@ == other_plain_query@ + query@.skip(plain_query@.len() as int),
{
    let base = base_text(options.kind);
    let other_base = base_text(other.kind);
    let rest = query@.skip(base.len() as int);
    assert(plain_query@ =~= base);
    assert(other_plain_query@ =~= other_base);
    assert(query@ =~= base + rest);
    assert(other_query@ =~= other_base + rest);
}

/// One name: a whitelist keeps its processes only, a blacklist leaves them out. The name stands
/// in quotes as it is, and the rest of the query does not change.
pub proof fn law_single_name(
    nameless: QueryOptions,
    options: QueryOptions,
    nameless_query: String,
    query: String,
)
    requires
        call_ensures(build_query, (&nameless,), nameless_query),
        call_ensures(build_query, (&options,), query),
        nameless == (QueryOptions { filter: nameless.filter, ..options }),
        nameless.filter@.len() == 0,
        options.filter@.len() > 0,
        !options.filter@.contains(','),
    ensures
        options.whitelist ==> query@ == nameless_query@ + " AND ( TargetInstance.Name = '"@
            + options.filter@ + "' )"@,
        !options.whitelist ==> query@ == nameless_query@ + " AND TargetInstance.Name != '"@
            + options.filter@ + "'"@,
{
    lemma_head_and_names(nameless);
    lemma_head_and_names(options);
    lemma_split_free(options.filter@, ',');
    lemma_closing();
    let names = seq![options.filter@];
    assert(names.drop_last() =~= Seq::empty());
    assert(alternatives_text(names.drop_last()) =~= Seq::empty());
    assert(exclusions_text(names.drop_last()) =~= Seq::empty());
    assert(nameless_query@ =~= head_text(options));
    if options.whitelist {
        assert(query@ =~= nameless_query@ + " AND ( TargetInstance.Name = '"@ + options.filter@
            + "' )"@);
    } else {
        assert(query@ =~= nameless_query@ + " AND TargetInstance.Name != '"@ + options.filter@
            + "'"@);
    }
}

/// A list that starts with a comma starts with an empty name.
pub proof fn law_leading_comma(
    nameless: QueryOptions,
    options: QueryOptions,
    name: Seq<char>,
    nameless_query: String,
    query: String,
)
    requires
        call_ensures(build_query, (&nameless,), nameless_query),
        call_ensures(build_query, (&options,), query),
        nameless == (QueryOptions { filter: nameless.filter, ..options }),
        nameless.filter@.len() == 0,
        options.filter@ == seq![','] + name,
        !name.contains(','),
    ensures
        options.whitelist ==> query@ == nameless_query@ + " AND ( TargetInstance.Name = ''"@
            + " OR TargetInstance.Name = '"@ + name + "' )"@,
        !options.whitelist ==> query@ == nameless_query@ + " AND TargetInstance.Name != ''"@
            + " AND TargetInstance.Name != '"@ + name + "'"@,
{
    lemma_head_and_names(nameless);
    lemma_head_and_names(options);
    let none = Seq::<char>::empty();
    assert(options.filter@ =~= none.push(',') + name);
    lemma_split_after(none, name, ',');
    lemma_closing();
    let names = split_at(options.filter@, ',');
    assert(names =~= seq![none].push(name));
    assert(names.drop_last() =~= seq![none]);
    assert(seq![none].drop_last() =~= Seq::empty());
    assert(alternatives_text(seq![none].drop_last()) =~= Seq::empty());
    assert(exclusions_text(seq![none].drop_last()) =~= Seq::empty());
    assert(nameless_query@ =~= head_text(options));
    if options.whitelist {
        assert(alternatives_text(seq![none]) =~= " AND ( TargetInstance.Name = ''"@);
        assert(query@ =~= nameless_query@ + " AND ( TargetInstance.Name = ''"@
            + " OR TargetInstance.Name = '"@ + name + "' )"@);
    } else {
        assert(exclusions_text(seq![none]) =~= " AND TargetInstance.Name != ''"@);
        assert(query@ =~= nameless_query@ + " AND TargetInstance.Name != ''"@
            + " AND TargetInstance.Name != '"@ + name + "'"@);
    }
}

/// One more name behind a comma: another alternative before the closing parenthesis of a
/// whitelist, another exclusion at the end of a blacklist. Nothing else changes.
pub proof fn law_one_more_name(
    shorter: QueryOptions,
    longer: QueryOptions,
    name: Seq<char>,
    before: String,
    after: String,
)
    requires
        call_ensures(build_query, (&shorter,), before),
        call_ensures(build_query, (&longer,), after),
        shorter == (QueryOptions { filter: shorter.filter, ..longer }),
        shorter.filter@.len() > 0,
        longer.filter@ == shorter.filter@.push(',') + name,
        !name.contains(','),
    ensures
        longer.whitelist ==> before@.len() >= 2 && before@ == before@.take(before@.len() - 2)
            + " )"@ && after@ == before@.take(before@.len() - 2) + " OR TargetInstance.Name = '"@
            + name + "' )"@,
        !longer.whitelist ==> after@ == before@ + " AND TargetInstance.Name != '"@ + name + "'"@,
{
    lemma_head_and_names(shorter);
    lemma_head_and_names(longer);
    lemma_split_after(shorter.filter@, name, ',');
    law_join_undoes_split(shorter.filter@, ',');
    lemma_closing();
    let names = split_at(longer.filter@, ',');
    assert(names.drop_last() =~= split_at(shorter.filter@, ','));
    assert(head_text(shorter) =~= head_text(longer));
    if longer.whitelist {
        let open = head_text(shorter) + alternatives_text(split_at(shorter.filter@, ','));
        assert(before@ =~= open + " )"@);
        assert(before@.take(before@.len() - 2) =~= open);
        assert(after@ =~= open + " OR TargetInstance.Name = '"@ + name + "' )"@);
    } else {
        assert(after@ =~= before@ + " AND TargetInstance.Name != '"@ + name + "'"@);
    }
}

/// Letting names in is never the same as leaving them out.
pub proof fn law_whitelist_is_no_blacklist(
    white: QueryOptions,
    black: QueryOptions,
    white_query: String,
    black_query: String,
)
    requires
        call_ensures(build_query, (&white,), white_query),
        call_ensures(build_query, (&black,), black_query),
        white.whitelist,
        !black.whitelist,
        white.filter@ == black.filter@,
        white.filter@.len() > 0,
    ensures
        white_query@ != black_query@,
        white_query@.len() > 0 && white_query@.last() == ')',
        black_query@.len() > 0 && black_query@.last() == '\'',
{
    lemma_head_and_names(white);
    lemma_head_and_names(black);
    lemma_closing();
    law_join_undoes_split(white.filter@, ',');
    let names = split_at(white.filter@, ',');
    assert(filter_text(white.filter@, true).last() == ')');
    assert(exclusions_text(names).last() == '\'');
    assert(white_query@.last() == ')');
    assert(black_query@.last() == '\'');
}

spec fn head_text(options: QueryOptions) -> Seq<char> {
    base_text(options.kind)
        + optional_text(options.filter_windows_noise, FILTER_WINDOWS_NOISE@)
        + optional_text(options.filter_usual_program_locations, FILTER_USUAL_PROGRAM_LOCATIONS@)
}

proof fn lemma_head_and_names(options: QueryOptions)
    ensures
        query_text(options) == head_text(options) + filter_text(options.filter@, options.whitelist),
{
}

proof fn lemma_closing()
    ensures
        "' )"@ == "'"@ + " )"@,
        "'"@ == seq!['\''],
        " )"@ == seq![' ', ')'],
        " AND ( TargetInstance.Name = ''"@ == " AND ( TargetInstance.Name = '"@ + "'"@,
        " AND TargetInstance.Name != ''"@ == " AND TargetInstance.Name != '"@ + "'"@,
{
    reveal_strlit("' )");
    reveal_strlit("'");
    reveal_strlit(" )");
    reveal_strlit(" AND ( TargetInstance.Name = ''");
    reveal_strlit(" AND ( TargetInstance.Name = '");
    reveal_strlit(" AND TargetInstance.Name != ''");
    reveal_strlit(" AND TargetInstance.Name != '");
    assert("' )"@ =~= "'"@ + " )"@);
    assert("'"@ =~= seq!['\'']);
    assert(" )"@ =~= seq![' ', ')']);
    assert(" AND ( TargetInstance.Name = ''"@ =~= " AND ( TargetInstance.Name = '"@ + "'"@);
    assert(" AND TargetInstance.Name != ''"@ =~= " AND TargetInstance.Name != '"@ + "'"@);
}

} // verus!
