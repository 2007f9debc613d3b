//! Issue templates: named sets of defaults for new issues.

use crate::assoc::{
    absent_from, assoc_map, lemma_assoc_contains, lemma_assoc_last, lemma_assoc_push,
    lemma_without_key_empty, lemma_without_key_map, lemma_without_key_step, without_key,
};
use crate::text::{join, joined, str_eq, texts};
use vstd::prelude::*;

verus! {

/// Defaults for a new issue.
#[derive(Debug, PartialEq, Eq)]
pub struct IssueTemplate {
    /// The name that identifies the template.
    pub name: String,
    /// A prefix for issue titles.
    pub title_prefix: Option<String>,
    /// The description of the issue.
    pub description: Option<String>,
    /// The priority: 0 none, 1 urgent, 2 high, 3 normal, 4 low.
    pub default_priority: Option<i32>,
    /// Labels to apply.
    pub default_labels: Vec<String>,
    /// Name or identifier of the team.
    pub team: Option<String>,
}

/// The mathematical content of an [`IssueTemplate`].
pub struct IssueTemplateView {
    pub name: Seq<char>,
    pub title_prefix: Option<Seq<char>>,
    pub description: Option<Seq<char>>,
    pub default_priority: Option<i32>,
    pub default_labels: Seq<Seq<char>>,
    pub team: Option<Seq<char>>,
}

/// The text of an optional string.
pub open spec fn text_of(s: Option<String>) -> Option<Seq<char>> {
    match s {
        Some(s) => Some(s@),
        None => None,
    }
}

impl View for IssueTemplate {
    type V = IssueTemplateView;

    open spec fn view(&self) -> IssueTemplateView {
        IssueTemplateView {
            name: self.name@,
            title_prefix: text_of(self.title_prefix),
            description: text_of(self.description),
            default_priority: self.default_priority,
            default_labels: texts(self.default_labels@),
            team: text_of(self.team),
        }
    }
}

/// A copy of an optional string.
fn clone_text(s: &Option<String>) -> (r: Option<String>)
    ensures
        text_of(r) == text_of(*s),
{
    match s {
        Some(s) => Some(s.clone()),
        None => None,
    }
}

/// A copy of a list of strings.
fn clone_texts(list: &Vec<String>) -> (r: Vec<String>)
    ensures
        texts(r@) == texts(list@),
{
    let mut r: Vec<String> = Vec::new();
    let mut i: usize = 0;
    while i < list.len()
        invariant
            i <= list.len(),
            r@.len() == i,
            forall|j: int| 0 <= j < i ==> r@[j]@ == list@[j]@,
        decreases list.len() - i,
    {
        r.push(list[i].clone());
        i += 1;
    }
    assert(texts(r@) =~= texts(list@));
    r
}

impl Clone for IssueTemplate {
    fn clone(&self) -> (r: Self)
        ensures
            r@ == self@,
    {
        IssueTemplate {
            name: self.name.clone(),
            title_prefix: clone_text(&self.title_prefix),
            description: clone_text(&self.description),
            default_priority: self.default_priority,
            default_labels: clone_texts(&self.default_labels),
            team: clone_text(&self.team),
        }
    }
}

/// All templates. Where a name occurs more than once, the last template of
/// that name counts.
#[derive(Debug, PartialEq, Eq)]
pub struct TemplateStore {
    pub templates: Vec<IssueTemplate>,
}

/// The templates of a list with their names, in order.
pub open spec fn named(templates: Seq<IssueTemplate>) -> Seq<(Seq<char>, IssueTemplateView)> {
    Seq::new(templates.len(), |i: int| (templates[i].name@, templates[i]@))
}

impl View for TemplateStore {
    type V = Map<Seq<char>, IssueTemplateView>;

    open spec fn view(&self) -> Map<Seq<char>, IssueTemplateView> {
        assoc_map(named(self.templates@))
    }
}

impl Default for TemplateStore {
    /// The store without templates.
    fn default() -> (store: TemplateStore)
        ensures
            store@ == Map::<Seq<char>, IssueTemplateView>::empty(),
    {
        TemplateStore { templates: Vec::new() }
    }
}

/// Why a use or a change of the templates was refused.
#[derive(Debug, Clone, Copy, PartialEq, Eq, Structural)]
pub enum TemplateError {
    /// A template of that name exists.
    AlreadyExists,
    /// No template has that name.
    NotFound,
    /// Neither the command nor the template names a team.
    TeamRequired,
}

impl TemplateError {
    /// The message shown for each error.
    pub open spec fn spec_message(self) -> Seq<char> {
        match self {
            TemplateError::AlreadyExists =>
                "Template already exists. Delete it first or choose a different name."@,
            TemplateError::NotFound => "Template not found"@,
            TemplateError::TeamRequired =>
                "--team is required (or use a template with a default team)"@,
        }
    }

    /// The message to show for the error.
    pub fn message(&self) -> (text: &'static str)
        ensures
            text@ == self.spec_message(),
    {
        match self {
            TemplateError::AlreadyExists => {
                "Template already exists. Delete it first or choose a different name."
            },
            TemplateError::NotFound => "Template not found",
            TemplateError::TeamRequired => {
                "--team is required (or use a template with a default team)"
            },
        }
    }
}

/// The position of the last template named `name`, if there is one.
fn find_template(templates: &Vec<IssueTemplate>, name: &str) -> (found: Option<usize>)
    ensures
        match found {
            Some(i) => i < templates.len() && assoc_map(named(templates@)).contains_key(name@)
                && assoc_map(named(templates@))[name@] == templates@[i as int]@,
            None => !assoc_map(named(templates@)).contains_key(name@),
        },
{
    let mut i: usize = templates.len();
    proof {
        lemma_assoc_contains(named(templates@), name@);
    }
    while i > 0
        invariant
            i <= templates.len(),
            absent_from(named(templates@), name@, i as int),
            !absent_from(named(templates@), name@, 0) <==> assoc_map(
                named(templates@),
            ).contains_key(name@),
        decreases i,
    {
        i -= 1;
        if str_eq(templates[i].name.as_str(), name) {
            proof {
                assert(named(templates@)[i as int].0 == name@);
                lemma_assoc_last(named(templates@), i as int);
            }
            return Some(i);
        }
    }
    None
}

/// The template of that name, if there is one.
pub fn get_template(store: &TemplateStore, name: &str) -> (template: Option<IssueTemplate>)
    ensures
        match template {
            Some(t) => store@.contains_key(name@) && store@[name@] == t@,
            None => !store@.contains_key(name@),
        },
{
    match find_template(&store.templates, name) {
        Some(i) => Some(store.templates[i].clone()),
        None => None,
    }
}

/// Adds a template under its name. A name that is taken is refused and the
/// store stays as it is.
pub fn add_template(store: &mut TemplateStore, template: IssueTemplate) -> (result: Result<
    (),
    TemplateError,
>)
    ensures
        old(store)@.contains_key(template.name@) ==> result == Err::<(), TemplateError>(
            TemplateError::AlreadyExists,
        ) && final(store)@ == old(store)@,
        !old(store)@.contains_key(template.name@) ==> result is Ok && final(store)@ == old(
            store,
        )@.insert(template.name@, template@),
{
    if find_template(&store.templates, template.name.as_str()).is_some() {
        return Err(TemplateError::AlreadyExists);
    }
    let ghost before = named(store.templates@);
    proof {
        lemma_assoc_push(before, template.name@, template@);
    }
    store.templates.push(template);
    assert(named(store.templates@) =~= before.push((template.name@, template@)));
    Ok(())
}

/// Removes the template of that name. A name that no template has is
/// refused and the store stays as it is.
pub fn remove_template(store: &mut TemplateStore, name: &str) -> (result: Result<
    (),
    TemplateError,
>)
    ensures
        !old(store)@.contains_key(name@) ==> result == Err::<(), TemplateError>(
            TemplateError::NotFound,
        ) && final(store)@ == old(store)@,
        old(store)@.contains_key(name@) ==> result is Ok && final(store)@ == old(store)@.remove(
            name@,
        ),
{
    if find_template(&store.templates, name).is_none() {
        return Err(TemplateError::NotFound);
    }
    let ghost all = named(store.templates@);
    let mut left: Vec<IssueTemplate> = Vec::new();
    let mut i: usize = 0;
    proof {
        lemma_without_key_empty(all, name@);
        lemma_without_key_map(all, name@);
        assert(named(left@) =~= without_key(all.take(0), name@));
    }
    while i < store.templates.len()
        invariant
            i <= store.templates.len(),
            all == named(store.templates@),
            *store == *old(store),
            named(left@) == without_key(all.take(i as int), name@),
        decreases store.templates.len() - i,
    {
        proof {
            lemma_without_key_step(all, name@, i as int);
        }
        let ghost before = named(left@);
        if !str_eq(store.templates[i].name.as_str(), name) {
            left.push(store.templates[i].clone());
            assert(named(left@) =~= before.push(all[i as int]));
        }
        i += 1;
    }
    assert(all.take(store.templates.len() as int) =~= all);
    store.templates = left;
    Ok(())
}

/// The name of each priority: urgent, high, normal and low for one to four,
/// a dash for none and for anything else.
pub open spec fn priority_text(priority: Option<i64>) -> Seq<char> {
    match priority {
        Some(p) => if p == 1 {
            "Urgent"@
        } else if p == 2 {
            "High"@
        } else if p == 3 {
            "Normal"@
        } else if p == 4 {
            "Low"@
        } else {
            "-"@
        },
        None => "-"@,
    }
}

/// The name of a priority.
pub fn priority_to_string(priority: Option<i64>) -> (text: String)
    ensures
        text@ == priority_text(priority),
{
    let text = match priority {
        Some(1) => "Urgent",
        Some(2) => "High",
        Some(3) => "Normal",
        Some(4) => "Low",
        _ => "-",
    };
    text.to_owned()
}

/// The priority that stands at a position of the menu of priorities: none
/// first, then urgent to low as one to four.
pub fn priority_from_selection(selection: usize) -> (priority: Option<i32>)
    ensures
        priority == if 1 <= selection <= 4 {
            Some(selection as i32)
        } else {
            None::<i32>
        },
{
    if selection == 1 {
        Some(1)
    } else if selection == 2 {
        Some(2)
    } else if selection == 3 {
        Some(3)
    } else if selection == 4 {
        Some(4)
    } else {
        None
    }
}

/// An answer that may be left empty: nothing for the empty text.
pub fn optional_text(answer: String) -> (text: Option<String>)
    ensures
        text_of(text) == if answer@.len() == 0 {
            None
        } else {
            Some(answer@)
        },
{
    if answer.as_str().unicode_len() == 0 {
        None
    } else {
        Some(answer)
    }
}

/// What a new issue is created with.
#[derive(Debug, PartialEq, Eq)]
pub struct IssueDraft {
    pub title: String,
    pub team: String,
    pub description: Option<String>,
    pub priority: Option<i32>,
    pub labels: Vec<String>,
}

/// The mathematical content of an [`IssueDraft`].
pub struct IssueDraftView {
    pub title: Seq<char>,
    pub team: Seq<char>,
    pub description: Option<Seq<char>>,
    pub priority: Option<i32>,
    pub labels: Seq<Seq<char>>,
}

impl View for IssueDraft {
    type V = IssueDraftView;

    open spec fn view(&self) -> IssueDraftView {
        IssueDraftView {
            title: self.title@,
            team: self.team@,
            description: text_of(self.description),
            priority: self.priority,
            labels: texts(self.labels@),
        }
    }
}

impl IssueTemplateView {
    /// The draft that the template and the values given on the command line
    /// make. A value of the command line wins over the template's; the
    /// template's title prefix goes before the title, and its labels before
    /// the labels given. Without a team from either there is no draft.
    pub open spec fn applied(
        self,
        title: Seq<char>,
        team: Option<Seq<char>>,
        description: Option<Seq<char>>,
        priority: Option<i32>,
        labels: Seq<Seq<char>>,
    ) -> Option<IssueDraftView> {
        let chosen_team = if team is Some {
            team
        } else {
            self.team
        };
        match chosen_team {
            Some(team) => Some(
                IssueDraftView {
                    title: match self.title_prefix {
                        Some(prefix) => prefix + " "@ + title,
                        None => title,
                    },
                    team,
                    description: if description is Some {
                        description
                    } else {
                        self.description
                    },
                    priority: if priority is Some {
                        priority
                    } else {
                        self.default_priority
                    },
                    labels: self.default_labels + labels,
                },
            ),
            None => None,
        }
    }
}

impl IssueTemplate {
    /// The template without a name and without defaults.
    pub fn blank() -> (template: IssueTemplate)
        ensures
            template@ == (IssueTemplateView {
                name: Seq::empty(),
                title_prefix: None,
                description: None,
                default_priority: None,
                default_labels: Seq::empty(),
                team: None,
            }),
    {
        let template = IssueTemplate {
            name: String::new(),
            title_prefix: None,
            description: None,
            default_priority: None,
            default_labels: Vec::new(),
            team: None,
        };
        assert(texts(template.default_labels@) =~= Seq::<Seq<char>>::empty());
        template
    }
}

/// Fills the values of a new issue that the command line leaves open from a
/// template.
pub fn apply_template(
    template: &IssueTemplate,
    title: String,
    team: Option<String>,
    description: Option<String>,
    priority: Option<i32>,
    labels: Vec<String>,
) -> (result: Result<IssueDraft, TemplateError>)
    ensures
        match result {
            Ok(draft) => template@.applied(
                title@,
                text_of(team),
                text_of(description),
                priority,
                texts(labels@),
            ) == Some(draft@),
            Err(e) => e == TemplateError::TeamRequired && template@.applied(
                title@,
                text_of(team),
                text_of(description),
                priority,
                texts(labels@),
            ) is None,
        },
{
    let chosen_team: Option<String> = match team {
        Some(team) => Some(team),
        None => clone_text(&template.team),
    };
    let team: String = match chosen_team {
        Some(team) => team,
        None => {
            return Err(TemplateError::TeamRequired);
        },
    };
    let full_title: String = match &template.title_prefix {
        Some(prefix) => {
            let mut full: String = prefix.clone();
            full.append(" ");
            full.append(title.as_str());
            full
        },
        None => title,
    };
    let description: Option<String> = match description {
        Some(d) => Some(d),
        None => clone_text(&template.description),
    };
    let priority: Option<i32> = match priority {
        Some(p) => Some(p),
        None => template.default_priority,
    };
    let mut all_labels: Vec<String> = clone_texts(&template.default_labels);
    let ghost head = all_labels@;
    let mut labels = labels;
    let ghost tail = labels@;
    all_labels.append(&mut labels);
    assert(texts(all_labels@) =~= texts(head) + texts(tail));
    Ok(IssueDraft { title: full_title, team, description, priority, labels: all_labels })
}

/// The labels of a template as shown in a table: joined by commas, or a
/// dash where there are none.
pub fn labels_display(labels: &Vec<String>) -> (text: String)
    ensures
        text@ == if labels.len() == 0 {
            "-"@
        } else {
            joined(texts(labels@), ", "@)
        },
{
    if labels.len() == 0 {
        "-".to_owned()
    } else {
        join(labels, ", ")
    }
}

} // verus!
