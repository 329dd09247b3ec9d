//! The process that a command runs.

use vstd::prelude::*;
use vstd::string::StringExecFns;

use crate::pb::{Meta, MetaView};
use crate::wire::{lemma_texts_push, texts};

verus! {

/// The process of a command: the program, its arguments and environment, the
/// working directory and the user.
#[derive(Debug)]
pub struct Context {
    pub name: String,
    pub args: Vec<String>,
    pub env: Vec<String>,
    pub cwd: String,
    pub user: String,
}

/// What a [`Context`] holds.
pub ghost struct ProcessView {
    pub name: Seq<char>,
    pub args: Seq<Seq<char>>,
    pub env: Seq<Seq<char>>,
    pub cwd: Seq<char>,
    pub user: Seq<char>,
}

impl ProcessView {
    /// The process record: the program is the first argument.
    pub open spec fn meta(&self) -> MetaView {
        MetaView { args: seq![self.name] + self.args, env: self.env, cwd: self.cwd, user: self.user }
    }
}

impl View for Context {
    type V = ProcessView;

    open spec fn view(&self) -> ProcessView {
        ProcessView {
            name: self.name@,
            args: texts(self.args@),
            env: texts(self.env@),
            cwd: self.cwd@,
            user: self.user@,
        }
    }
}

/// A copy of a list of strings.
pub fn copy_texts(items: &Vec<String>) -> (out: Vec<String>)
    ensures
        texts(out@) == texts(items@),
{
    let mut out: Vec<String> = Vec::new();
    let mut i: usize = 0;
    while i < items.len()
        invariant
            i <= items@.len(),
            texts(out@) == texts(items@.subrange(0, i as int)),
        decreases items@.len() - i,
    {
        let ghost before = out@;
        out.push(items[i].clone());
        proof {
            lemma_texts_push(before, out@.last());
            lemma_texts_push(items@.subrange(0, i as int), items@[i as int]);
            assert(items@.subrange(0, i + 1) =~= items@.subrange(0, i as int).push(
                items@[i as int],
            ));
        }
        i = i + 1;
    }
    assert(items@.subrange(0, i as int) =~= items@);
    out
}

impl Context {
    /// The process that runs `name` without arguments, in `/`, as `root`.
    pub fn new(name: &str) -> (context: Context)
        ensures
            context@ == (ProcessView {
                name: name@,
                args: Seq::empty(),
                env: Seq::empty(),
                cwd: "/"@,
                user: "root"@,
            }),
    {
        let context = Context {
            name: String::from_str(name),
            args: Vec::new(),
            env: Vec::new(),
            cwd: String::from_str("/"),
            user: String::from_str("root"),
        };
        assert(context@.args =~= Seq::empty());
        assert(context@.env =~= Seq::empty());
        context
    }

    /// The process record.
    pub fn to_meta(&self) -> (meta: Meta)
        ensures
            meta@ == self@.meta(),
    {
        let mut args: Vec<String> = Vec::new();
        args.push(self.name.clone());
        assert(texts(args@) =~= seq![self.name@]);
        assert(self.args@.subrange(0, 0) =~= Seq::empty());
        assert(texts(Seq::<String>::empty()) =~= Seq::empty());
        let mut i: usize = 0;
        while i < self.args.len()
            invariant
                i <= self.args@.len(),
                texts(args@) == seq![self.name@] + texts(self.args@.subrange(0, i as int)),
            decreases self.args@.len() - i,
        {
            let ghost before = args@;
            args.push(self.args[i].clone());
            proof {
                lemma_texts_push(before, args@.last());
                lemma_texts_push(self.args@.subrange(0, i as int), self.args@[i as int]);
                assert(self.args@.subrange(0, i + 1) =~= self.args@.subrange(0, i as int).push(
                    self.args@[i as int],
                ));
                assert(texts(args@) =~= seq![self.name@] + texts(
                    self.args@.subrange(0, i + 1),
                ));
            }
            i = i + 1;
        }
        assert(self.args@.subrange(0, i as int) =~= self.args@);
        Meta { args, env: copy_texts(&self.env), cwd: self.cwd.clone(), user: self.user.clone() }
    }
}

} // verus!
