//! Messages: what a rule says when it fires, as templates, and the notice
//! that a message becomes once the fields of an observation are put in.

use crate::hint::{decoded, Hint, HintView, MyHint};
use crate::template::{render_template, rendered, rendered_option, FieldMap};
use crate::text::{copy_option_text, option_text, same_text};
use crate::utils::{blank, is_blank, lowercase_of, parse_urgency, urgency_named, Urgency};
use vstd::prelude::*;

verus! {

/// The urgency of a message that names none.
pub fn default_urgency() -> (name: String)
    ensures
        name@ == "normal"@,
{
    "normal".to_owned()
}

/// The application name of a message that names none.
pub fn default_appname() -> (name: String)
    ensures
        name@ == "alertify"@,
{
    "alertify".to_owned()
}

/// The hints of a message: hint texts, none of them twice, in the order in
/// which they were put in.
#[derive(Debug)]
pub struct HintSet {
    items: Vec<MyHint>,
}

impl Clone for HintSet {
    fn clone(&self) -> (copy: Self)
        ensures
            copy@ == self@,
    {
        proof {
            use_type_invariant(self);
        }
        let mut items: Vec<MyHint> = Vec::new();
        let mut i: usize = 0;
        while i < self.items.len()
            invariant
                i <= self.items.len(),
                items.len() == i,
                forall|k: int| 0 <= k < i ==> (#[trigger] items[k])@ == self.items[k]@,
            decreases self.items.len() - i,
        {
            items.push(self.items[i].clone());
            i += 1;
        }
        let copy = HintSet { items };
        assert(copy@ =~= self@);
        copy
    }
}

impl View for HintSet {
    type V = Seq<Seq<char>>;

    closed spec fn view(&self) -> Seq<Seq<char>> {
        self.items@.map_values(|hint: MyHint| hint@)
    }
}

impl HintSet {
    #[verifier::type_invariant]
    spec fn distinct(&self) -> bool {
        forall|i: int, j: int|
            0 <= i < j < self.items.len() ==> (#[trigger] self.items[i])@
                != (#[trigger] self.items[j])@
    }

    /// A set without hints.
    pub fn new() -> (set: Self)
        ensures
            set@ == Seq::<Seq<char>>::empty(),
    {
        let set = HintSet { items: Vec::new() };
        assert(set@ =~= Seq::<Seq<char>>::empty());
        set
    }

    /// How many hints the set holds. No two of them have the same text.
    pub fn len(&self) -> (n: usize)
        ensures
            n == self@.len(),
            self@.no_duplicates(),
    {
        proof {
            use_type_invariant(self);
            assert forall|i: int, j: int|
                0 <= i < self@.len() && 0 <= j < self@.len() && i != j implies self@[i]
                != self@[j] by {
                if i < j {
                    assert(self.items[i]@ != self.items[j]@);
                } else {
                    assert(self.items[j]@ != self.items[i]@);
                }
            }
        }
        self.items.len()
    }

    /// The hint at position `i`.
    pub fn get(&self, i: usize) -> (hint: &MyHint)
        requires
            i < self@.len(),
        ensures
            hint@ == self@[i as int],
    {
        &self.items[i]
    }

    /// Whether the set holds a hint with the text of `hint`.
    pub fn contains(&self, hint: &MyHint) -> (found: bool)
        ensures
            found == self@.contains(hint@),
    {
        let mut i: usize = 0;
        while i < self.items.len()
            invariant
                i <= self.items.len(),
                forall|k: int| 0 <= k < i ==> self@[k] != hint@,
            decreases self.items.len() - i,
        {
            if same_text(self.items[i].as_str(), hint.as_str()) {
                assert(self@[i as int] == hint@);
                return true;
            }
            i += 1;
        }
        false
    }

    /// Puts `hint` in the set, at the end, unless a hint with the same text
    /// is there already. Says whether the hint was put in.
    pub fn insert(&mut self, hint: MyHint) -> (added: bool)
        ensures
            added == !old(self)@.contains(hint@),
            final(self)@ == if added {
                old(self)@.push(hint@)
            } else {
                old(self)@
            },
    {
        if self.contains(&hint) {
            false
        } else {
            proof {
                use_type_invariant(&*self);
            }
            let ghost before = self.items@;
            let mut items: Vec<MyHint> = Vec::new();
            std::mem::swap(&mut self.items, &mut items);
            items.push(hint);
            assert forall|i: int, j: int| 0 <= i < j < items.len() implies (#[trigger] items[i])@
                != (#[trigger] items[j])@ by {
                if j < before.len() {
                    assert(before[i]@ != before[j]@);
                } else {
                    assert(old(self)@[i] == before[i]@);
                }
            }
            std::mem::swap(&mut self.items, &mut items);
            assert(self@ =~= old(self)@.push(hint@));
            true
        }
    }
}

/// A message, as spec values.
pub struct MessageView {
    pub urgency: Seq<char>,
    pub appname: Seq<char>,
    pub summary: Option<Seq<char>>,
    pub body: Option<Seq<char>>,
    pub icon: Option<Seq<char>>,
    pub timeout: Option<u32>,
    pub hints: Seq<Seq<char>>,
    pub command: Option<Seq<char>>,
}

/// What a rule says when it fires. Every text of it is a template: the
/// urgency, the application name, the summary, the body, the icon, each
/// hint and the command.
#[derive(Debug)]
pub struct Message {
    /// The name of the urgency: `low`, `normal` or `critical`, in any case.
    pub urgency: String,
    pub appname: String,
    pub summary: Option<String>,
    pub body: Option<String>,
    pub icon: Option<String>,
    /// How long the notification stays, in milliseconds.
    pub timeout: Option<u32>,
    pub hints: HintSet,
    /// A command to run when the rule fires.
    pub command: Option<String>,
}

impl View for Message {
    type V = MessageView;

    open spec fn view(&self) -> MessageView {
        MessageView {
            urgency: self.urgency@,
            appname: self.appname@,
            summary: option_text(self.summary),
            body: option_text(self.body),
            icon: option_text(self.icon),
            timeout: self.timeout,
            hints: self.hints@,
            command: option_text(self.command),
        }
    }
}

impl Clone for Message {
    fn clone(&self) -> (copy: Self)
        ensures
            copy@ == self@,
    {
        Message {
            urgency: self.urgency.clone(),
            appname: self.appname.clone(),
            summary: copy_option_text(&self.summary),
            body: copy_option_text(&self.body),
            icon: copy_option_text(&self.icon),
            timeout: self.timeout,
            hints: self.hints.clone(),
            command: copy_option_text(&self.command),
        }
    }
}

impl Default for Message {
    /// A message that says nothing: empty names, no text, no hints.
    fn default() -> (message: Self)
        ensures
            message@ == (MessageView {
                urgency: Seq::empty(),
                appname: Seq::empty(),
                summary: None,
                body: None,
                icon: None,
                timeout: None,
                hints: Seq::empty(),
                command: None,
            }),
    {
        Message {
            urgency: String::new(),
            appname: String::new(),
            summary: None,
            body: None,
            icon: None,
            timeout: None,
            hints: HintSet::new(),
            command: None,
        }
    }
}

/// A notice, as spec values.
pub struct NoticeView {
    pub key: Option<Seq<char>>,
    pub urgency: Urgency,
    pub appname: Seq<char>,
    pub summary: Option<Seq<char>>,
    pub body: Option<Seq<char>>,
    pub icon: Option<Seq<char>>,
    pub timeout: Option<u32>,
    pub hints: Seq<HintView>,
    pub command: Option<Seq<char>>,
}

/// A message with the fields of one observation put in: what is handed
/// to the notifier, and the command that is handed to the executor.
#[derive(Debug)]
pub struct Notice {
    /// The alert key that the notice answers to; none for the notice of an
    /// event, which the latch does not hold.
    pub key: Option<String>,
    pub urgency: Urgency,
    pub appname: String,
    pub summary: Option<String>,
    pub body: Option<String>,
    pub icon: Option<String>,
    pub timeout: Option<u32>,
    pub hints: Vec<Hint>,
    pub command: Option<String>,
}

impl View for Notice {
    type V = NoticeView;

    open spec fn view(&self) -> NoticeView {
        NoticeView {
            key: option_text(self.key),
            urgency: self.urgency,
            appname: self.appname@,
            summary: option_text(self.summary),
            body: option_text(self.body),
            icon: option_text(self.icon),
            timeout: self.timeout,
            hints: self.hints@.map_values(|hint: Hint| hint@),
            command: option_text(self.command),
        }
    }
}

/// The notice that `message` becomes at the urgency `urgency` with the
/// fields `fields`: the application name, the summary, the body, the icon
/// and the command are rendered; each hint is rendered and then decoded;
/// the timeout is taken as it is. The notice answers to no alert key.
pub open spec fn notice_with(
    message: MessageView,
    urgency: Urgency,
    fields: Map<Seq<char>, Seq<char>>,
) -> NoticeView {
    NoticeView {
        key: None,
        urgency,
        appname: rendered(message.appname, fields),
        summary: rendered_option(message.summary, fields),
        body: rendered_option(message.body, fields),
        icon: rendered_option(message.icon, fields),
        timeout: message.timeout,
        hints: message.hints.map_values(|hint: Seq<char>| decoded(rendered(hint, fields))),
        command: rendered_option(message.command, fields),
    }
}

/// The notice that `message` becomes with the fields `fields`, at the
/// urgency that the message names once it is rendered.
pub open spec fn notice_of(message: MessageView, fields: Map<Seq<char>, Seq<char>>) -> NoticeView {
    notice_with(
        message,
        urgency_named(lowercase_of(rendered(message.urgency, fields))),
        fields,
    )
}

/// The command of a notice that is worth running: the notice's command,
/// unless it holds nothing but white space.
pub open spec fn command_to_run_of(notice: NoticeView) -> Option<Seq<char>> {
    match notice.command {
        Some(command) => if blank(command) {
            None
        } else {
            Some(command)
        },
        None => None,
    }
}

impl Notice {
    /// The command to hand to the executor, if the notice has one that is
    /// worth running.
    pub fn command_to_run(&self) -> (command: Option<&str>)
        ensures
            match command {
                Some(text) => command_to_run_of(self@) == Some(text@),
                None => command_to_run_of(self@) is None,
            },
    {
        match &self.command {
            Some(command) => {
                if is_blank(command.as_str()) {
                    None
                } else {
                    Some(command.as_str())
                }
            },
            None => None,
        }
    }
}

fn render_option(template: &Option<String>, fields: &FieldMap) -> (out: Option<String>)
    ensures
        option_text(out) == rendered_option(option_text(*template), fields@),
{
    match template {
        Some(text) => Some(render_template(text.as_str(), fields)),
        None => None,
    }
}

impl Message {
    /// Renders `template` with `fields`.
    pub fn render_template(template: &str, fields: &FieldMap) -> (out: String)
        ensures
            out@ == rendered(template@, fields@),
    {
        render_template(template, fields)
    }

    /// The notice that the message becomes at the urgency `urgency` with
    /// the fields `fields`.
    pub fn render_with(&self, urgency: Urgency, fields: &FieldMap) -> (notice: Notice)
        ensures
            notice@ == notice_with(self@, urgency, fields@),
    {
        let mut hints: Vec<Hint> = Vec::new();
        let count = self.hints.len();
        let mut i: usize = 0;
        while i < count
            invariant
                i <= count == self.hints@.len(),
                hints@.len() == i,
                forall|k: int|
                    0 <= k < i ==> (#[trigger] hints@[k])@ == decoded(
                        rendered(self.hints@[k], fields@),
                    ),
            decreases count - i,
        {
            hints.push(self.hints.get(i).render(fields).decode());
            i += 1;
        }
        let notice = Notice {
            key: None,
            urgency,
            appname: render_template(self.appname.as_str(), fields),
            summary: render_option(&self.summary, fields),
            body: render_option(&self.body, fields),
            icon: render_option(&self.icon, fields),
            timeout: self.timeout,
            hints,
            command: render_option(&self.command, fields),
        };
        assert(notice@.hints =~= notice_with(self@, urgency, fields@).hints);
        notice
    }

    /// The notice that the message becomes with the fields `fields`.
    pub fn render(&self, fields: &FieldMap) -> (notice: Notice)
        ensures
            notice@ == notice_of(self@, fields@),
    {
        let urgency = render_template(self.urgency.as_str(), fields);
        self.render_with(parse_urgency(urgency.as_str()), fields)
    }
}

} // verus!
