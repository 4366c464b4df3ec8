//! The command-line modes of the program.
use vstd::prelude::*;

verus! {

/// The command-line flags.
#[derive(Debug, PartialEq, Eq)]
pub struct Args {
    /// List the resources.
    pub resources: bool,
    /// List the prompts.
    pub prompts: bool,
    /// List the tools.
    pub tools: bool,
    /// Serve the protocol on standard input and output.
    pub mcp: bool,
    /// Print listings as JSON.
    pub json: bool,
}

/// One thing that the listing mode prints.
#[derive(PartialEq, Eq, Structural, Debug, Clone, Copy)]
pub enum Listing {
    /// A hint to read the help, where nothing is asked for.
    Usage,
    PromptsJson,
    ResourcesJson,
    ToolsJson,
    PromptsText,
    ResourcesText,
    ToolsText,
}

impl Args {
    /// Whether any listing is asked for.
    pub fn is_args_available(&self) -> (r: bool)
        ensures
            r == (self.prompts || self.resources || self.tools),
    {
        self.prompts || self.resources || self.tools
    }
}

/// What the listing mode prints, in order: prompts, resources, tools, as
/// JSON or as text; the usage hint where none is asked for.
pub open spec fn spec_listings(args: Args) -> Seq<Listing> {
    if !(args.prompts || args.resources || args.tools) {
        seq![Listing::Usage]
    } else {
        (if args.prompts { seq![if args.json { Listing::PromptsJson } else { Listing::PromptsText }] } else { seq![] })
        + (if args.resources { seq![if args.json { Listing::ResourcesJson } else { Listing::ResourcesText }] } else { seq![] })
        + (if args.tools { seq![if args.json { Listing::ToolsJson } else { Listing::ToolsText }] } else { seq![] })
    }
}

/// What the listing mode prints for `args`.
pub fn display_info(args: &Args) -> (r: Vec<Listing>)
    ensures
        r@ == spec_listings(*args),
{
    let mut out: Vec<Listing> = Vec::new();
    if !args.is_args_available() {
        out.push(Listing::Usage);
        return out;
    }
    if args.prompts {
        out.push(if args.json { Listing::PromptsJson } else { Listing::PromptsText });
    }
    if args.resources {
        out.push(if args.json { Listing::ResourcesJson } else { Listing::ResourcesText });
    }
    if args.tools {
        out.push(if args.json { Listing::ToolsJson } else { Listing::ToolsText });
    }
    proof {
        assert(out@ =~= spec_listings(*args));
    }
    out
}

} // verus!
