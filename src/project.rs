use vstd::prelude::*;

verus! {

/// A named project; `id` is its position among the lines that were read.
pub struct Project {
    pub name: String,
    pub id: usize,
}

/// The names carried by the lines that decoded, in file order. A line that
/// failed to decode is `None` and contributes nothing.
pub open spec fn decoded_names(lines: Seq<Option<String>>) -> Seq<Seq<char>>
    decreases lines.len(),
{
    if lines.len() == 0 {
        Seq::empty()
    } else {
        let rest = decoded_names(lines.drop_last());
        match lines.last() {
            Some(s) => rest.push(s@),
            None => rest,
        }
    }
}

/// `ps` holds exactly the names `names`, in order, each with its position
/// as its id.
pub open spec fn numbered(ps: Seq<Project>, names: Seq<Seq<char>>) -> bool {
    &&& ps.len() == names.len()
    &&& forall|i: int| 0 <= i < ps.len() ==> (#[trigger] ps[i]).id == i && ps[i].name@ == names[i]
}

/// The decoded names are the lines that decoded, kept in file order: the
/// project list thus has one entry for each line that decoded, and no more.
pub proof fn lemma_decoded_names_are_good_lines(lines: Seq<Option<String>>)
    ensures
        decoded_names(lines) == lines.filter(|l: Option<String>| l is Some).map_values(
            |l: Option<String>| l.unwrap()@,
        ),
    decreases lines.len(),
{
    reveal(Seq::filter);
    if lines.len() > 0 {
        lemma_decoded_names_are_good_lines(lines.drop_last());
        assert(decoded_names(lines) =~= lines.filter(|l: Option<String>| l is Some).map_values(
            |l: Option<String>| l.unwrap()@,
        ));
    } else {
        assert(decoded_names(lines) =~= lines.filter(|l: Option<String>| l is Some).map_values(
            |l: Option<String>| l.unwrap()@,
        ));
    }
}

/// Builds the project list from the lines of a file: one project per line
/// that decoded, numbered from 0 in the order read. Lines that failed to
/// decode are skipped and do not take up an id.
pub fn projects_from_lines(lines: &Vec<Option<String>>) -> (r: Vec<Project>)
    ensures
        numbered(r@, decoded_names(lines@)),
{
    let mut projects: Vec<Project> = Vec::new();
    let mut i: usize = 0;
    while i < lines.len()
        invariant
            i <= lines.len(),
            numbered(projects@, decoded_names(lines@.take(i as int))),
        decreases lines.len() - i,
    {
        proof {
            assert(lines@.take(i as int + 1).drop_last() =~= lines@.take(i as int));
        }
        match &lines[i] {
            Some(name) => {
                let id = projects.len();
                projects.push(Project { name: name.clone(), id });
            },
            None => {},
        }
        i = i + 1;
    }
    proof {
        assert(lines@.take(lines@.len() as int) =~= lines@);
    }
    projects
}

/// Loads the project list from what was read of the file: `None` where the
/// file could not be opened, which yields no projects and no error.
pub fn load_projects(file: Option<Vec<Option<String>>>) -> (r: Vec<Project>)
    ensures
        file is None ==> r@.len() == 0,
        file matches Some(lines) ==> numbered(r@, decoded_names(lines@)),
{
    match file {
        Some(lines) => projects_from_lines(&lines),
        None => Vec::new(),
    }
}

} // verus!
