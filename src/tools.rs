//! The registry of tools that a server exposes.
use vstd::prelude::*;
use crate::json::owned;
use crate::registry::Registry;
use crate::types::{Tool, ToolAnnotations, CallToolRequest};

verus! {

/// `a` and `b` describe the same tool.
pub open spec fn same_tool(a: Tool, b: Tool) -> bool {
    &&& a.name == b.name
    &&& a.description == b.description
    &&& a.input_schema@ == b.input_schema@
    &&& a.annotations == b.annotations
}

impl ToolAnnotations {
    pub fn duplicate(&self) -> (r: ToolAnnotations)
        ensures
            r == *self,
    {
        ToolAnnotations {
            title: match &self.title {
                Some(t) => Some(t.clone()),
                None => None,
            },
            read_only_hint: self.read_only_hint,
            destructive_hint: self.destructive_hint,
            idempotent_hint: self.idempotent_hint,
            open_world_hint: self.open_world_hint,
        }
    }
}

impl Tool {
    pub fn duplicate(&self) -> (r: Tool)
        ensures
            same_tool(r, *self),
    {
        Tool {
            name: self.name.clone(),
            description: match &self.description {
                Some(d) => Some(d.clone()),
                None => None,
            },
            input_schema: self.input_schema.duplicate(),
            annotations: match &self.annotations {
                Some(a) => Some(a.duplicate()),
                None => None,
            },
        }
    }
}

/// A tool and the function that runs it.
pub struct ToolHandler<H> {
    pub tool: Tool,
    pub f: H,
}

/// The tools of a server, keyed by name.
pub struct Tools<H> {
    tool_handlers: Registry<ToolHandler<H>>,
}

impl<H> Tools<H> {
    pub closed spec fn handlers(&self) -> Registry<ToolHandler<H>> {
        self.tool_handlers
    }

    pub open spec fn wf(&self) -> bool {
        self.handlers().wf()
    }

    /// The tool registered under `name`.
    pub open spec fn tool_named(&self, name: Seq<char>) -> Option<ToolHandler<H>> {
        self.handlers().value_of(name)
    }

    pub fn new() -> (r: Tools<H>)
        ensures
            r.wf(),
            r.handlers().table().len() == 0,
            forall|k: Seq<char>| r.tool_named(k) is None,
    {
        Tools { tool_handlers: Registry::new() }
    }

    /// Registers `tool` under its name, replacing a tool of the same name.
    pub fn register(&mut self, tool: Tool, f: H)
        requires
            old(self).wf(),
        ensures
            final(self).wf(),
            final(self).tool_named(tool.name@) matches Some(h) && h.tool == tool && h.f == f,
            forall|k: Seq<char>| k != tool.name@ ==> final(self).tool_named(k) == old(self).tool_named(k),
    {
        let name = tool.name.clone();
        self.tool_handlers.insert(name, ToolHandler { tool, f });
    }

    /// The description of the tool called `name`.
    pub fn get_tool(&self, name: &String) -> (r: Option<Tool>)
        ensures
            match r {
                Some(t) => self.tool_named(name@) matches Some(h) && same_tool(t, h.tool),
                None => self.tool_named(name@) is None,
            },
    {
        match self.tool_handlers.get(name) {
            Some(h) => Some(h.tool.duplicate()),
            None => None,
        }
    }

    /// The handler for a call, or `"Tool not found: <name>"`.
    pub fn call_tool(&self, req: &CallToolRequest) -> (r: Result<&H, String>)
        ensures
            match r {
                Ok(f) => self.tool_named(req.name@) matches Some(h) && h.f == *f,
                Err(m) => self.tool_named(req.name@) is None && m@ == "Tool not found: "@ + req.name@,
            },
    {
        match self.tool_handlers.get(&req.name) {
            Some(h) => Ok(&h.f),
            None => Err(owned("Tool not found: ").concat(req.name.as_str())),
        }
    }

    /// Every registered tool, in the order of registration.
    pub fn list_tools(&self) -> (r: Vec<Tool>)
        ensures
            r@.len() == self.handlers().table().len(),
            forall|i: int| 0 <= i < r@.len() ==> same_tool(#[trigger] r@[i], self.handlers().table()[i].1.tool),
    {
        let mut out: Vec<Tool> = Vec::new();
        let mut i: usize = 0;
        while i < self.tool_handlers.len()
            invariant
                i <= self.handlers().table().len(),
                out@.len() == i,
                forall|k: int| 0 <= k < i ==> same_tool(#[trigger] out@[k], self.handlers().table()[k].1.tool),
            decreases self.handlers().table().len() - i,
        {
            let (_, h) = self.tool_handlers.entry(i);
            out.push(h.tool.duplicate());
            i = i + 1;
        }
        out
    }
}

} // verus!
