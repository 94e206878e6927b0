use vstd::prelude::*;

verus! {

/// A label-to-status table as plain character sequences.
pub type StatusTable = Seq<(Seq<char>, Seq<char>)>;

/// The view of an executable table of label/status pairs.
pub open spec fn table_view(t: Seq<(String, String)>) -> StatusTable {
    t.map_values(|e: (String, String)| (e.0@, e.1@))
}

/// The status stored for `label`: the first entry whose label matches.
pub open spec fn lookup_entry(table: StatusTable, label: Seq<char>) -> Option<Seq<char>>
    decreases table.len(),
{
    if table.len() == 0 {
        None
    } else if table[0].0 == label {
        Some(table[0].1)
    } else {
        lookup_entry(table.drop_first(), label)
    }
}

/// The built-in mapping from labels to workflow statuses.
pub open spec fn default_status_table() -> StatusTable {
    seq![
        ("In development"@, "In development"@),
        ("Needs code review"@, "In code review"@),
        ("Needs PM review"@, "In PM review"@),
        ("Ready"@, "Ready to ship"@),
    ]
}

/// The status one label resolves to: the caller's table first, then the
/// built-in one.
pub open spec fn resolve_label(config: Option<StatusTable>, label: Seq<char>) -> Option<Seq<char>> {
    let from_config = match config {
        Some(c) => lookup_entry(c, label),
        None => None,
    };
    match from_config {
        Some(s) => Some(s),
        None => lookup_entry(default_status_table(), label),
    }
}

/// The statuses that the labels resolve to, in the labels' order, skipping
/// labels that resolve to nothing.
pub open spec fn resolved_statuses(config: Option<StatusTable>, labels: Seq<Seq<char>>) -> Seq<Seq<char>>
    decreases labels.len(),
{
    if labels.len() == 0 {
        Seq::empty()
    } else {
        let earlier = resolved_statuses(config, labels.drop_last());
        match resolve_label(config, labels.last()) {
            Some(s) => earlier.push(s),
            None => earlier,
        }
    }
}

/// The status chosen for a set of labels: the second resolution, if any.
pub open spec fn second_resolution(config: Option<StatusTable>, labels: Seq<Seq<char>>) -> Option<Seq<char>> {
    let found = resolved_statuses(config, labels);
    if found.len() >= 2 {
        Some(found[1])
    } else {
        None
    }
}

/// The resolutions of a prefix of the labels are a prefix of the resolutions
/// of all of them.
pub proof fn lemma_resolved_prefix(config: Option<StatusTable>, labels: Seq<Seq<char>>, j: int)
    requires
        0 <= j <= labels.len(),
    ensures
        resolved_statuses(config, labels.subrange(0, j)).len() <= resolved_statuses(config, labels).len(),
        forall|k: int|
            0 <= k < resolved_statuses(config, labels.subrange(0, j)).len() ==> #[trigger] resolved_statuses(
                config,
                labels.subrange(0, j),
            )[k] == resolved_statuses(config, labels)[k],
    decreases labels.len(),
{
    if j < labels.len() {
        lemma_resolved_prefix(config, labels.drop_last(), j);
        assert(labels.drop_last().subrange(0, j) =~= labels.subrange(0, j));
    } else {
        assert(labels.subrange(0, j) =~= labels);
    }
}

/// Fewer than two labels that resolve to a status give no status at all.
pub proof fn lemma_fewer_than_two_resolutions(config: Option<StatusTable>, labels: Seq<Seq<char>>)
    requires
        resolved_statuses(config, labels).len() < 2,
    ensures
        second_resolution(config, labels) is None,
{
}

/// Looks `label` up in `table`, returning the status of the first matching
/// entry.
pub fn find_status(table: &Vec<(String, String)>, label: &String) -> (r: Option<String>)
    ensures
        match r {
            Some(s) => lookup_entry(table_view(table@), label@) == Some(s@),
            None => lookup_entry(table_view(table@), label@) is None,
        },
{
    let ghost whole = table_view(table@);
    assert(whole.subrange(0, whole.len() as int) =~= whole);
    let mut i: usize = 0;
    while i < table.len()
        invariant
            0 <= i <= table.len(),
            whole == table_view(table@),
            lookup_entry(whole, label@) == lookup_entry(whole.subrange(i as int, whole.len() as int), label@),
        decreases table.len() - i,
    {
        let ghost rest = whole.subrange(i as int, whole.len() as int);
        assert(rest.drop_first() =~= whole.subrange(i + 1, whole.len() as int));
        if table[i].0 == *label {
            return Some(table[i].1.clone());
        }
        i = i + 1;
    }
    None
}

/// The view of an optional caller-supplied table.
pub open spec fn config_view(config: Option<Vec<(String, String)>>) -> Option<StatusTable> {
    match config {
        Some(c) => Some(table_view(c@)),
        None => None,
    }
}

/// The view of a list of labels.
pub open spec fn labels_view(labels: Seq<String>) -> Seq<Seq<char>> {
    labels.map_values(|l: String| l@)
}

/// Builds the built-in label-to-status table.
pub fn default_labels() -> (r: Vec<(String, String)>)
    ensures
        table_view(r@) == default_status_table(),
{
    let mut r: Vec<(String, String)> = Vec::new();
    r.push((String::from_str("In development"), String::from_str("In development")));
    r.push((String::from_str("Needs code review"), String::from_str("In code review")));
    r.push((String::from_str("Needs PM review"), String::from_str("In PM review")));
    r.push((String::from_str("Ready"), String::from_str("Ready to ship")));
    assert(table_view(r@) =~= default_status_table());
    r
}

/// Resolves one label: the caller's table first, then the built-in one.
pub fn resolve_one(
    defaults: &Vec<(String, String)>,
    config: &Option<Vec<(String, String)>>,
    label: &String,
) -> (r: Option<String>)
    requires
        table_view(defaults@) == default_status_table(),
    ensures
        match r {
            Some(s) => resolve_label(config_view(*config), label@) == Some(s@),
            None => resolve_label(config_view(*config), label@) is None,
        },
{
    let from_config = match config {
        Some(c) => find_status(c, label),
        None => None,
    };
    match from_config {
        Some(s) => Some(s),
        None => find_status(defaults, label),
    }
}

/// The status for a list of labels: the second label that resolves to a
/// status decides it; with fewer than two such labels there is none.
pub fn second_status(labels: &Vec<String>, config: &Option<Vec<(String, String)>>) -> (r: Option<
    String,
>)
    ensures
        match r {
            Some(s) => second_resolution(config_view(*config), labels_view(labels@)) == Some(s@),
            None => second_resolution(config_view(*config), labels_view(labels@)) is None,
        },
{
    let defaults = default_labels();
    let ghost cfg = config_view(*config);
    let ghost all = labels_view(labels@);
    let mut seen_one = false;
    let mut i: usize = 0;
    while i < labels.len()
        invariant
            0 <= i <= labels.len(),
            table_view(defaults@) == default_status_table(),
            cfg == config_view(*config),
            all == labels_view(labels@),
            resolved_statuses(cfg, all.subrange(0, i as int)).len() == (if seen_one {
                1int
            } else {
                0int
            }),
        decreases labels.len() - i,
    {
        let found = resolve_one(&defaults, config, &labels[i]);
        let ghost next = all.subrange(0, i + 1);
        assert(next.drop_last() =~= all.subrange(0, i as int));
        assert(next.last() == labels@[i as int]@);
        match found {
            Some(s) => {
                if seen_one {
                    proof {
                        lemma_resolved_prefix(cfg, all, i + 1);
                        assert(resolved_statuses(cfg, next)[1] == s@);
                    }
                    return Some(s);
                }
                seen_one = true;
            },
            None => {},
        }
        i = i + 1;
    }
    assert(all.subrange(0, labels.len() as int) =~= all);
    None
}

} // verus!
