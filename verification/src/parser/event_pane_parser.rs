use vstd::prelude::*;
use crate::dom::{outer_html_at, vis_outer_html};
use crate::error::EhParseResult;
use crate::structures::EventPane;

verus! {

impl EventPane {
    /// Cut the event pane out of a page, as raw markup.  Total: a page
    /// without the pane yields empty markup.
    pub fn parse(s: &str) -> (r: EhParseResult<EventPane>)
        ensures
            r matches Ok(p) && p.value@ == vis_outer_html(s@, "#eventpane"@),
    {
        Ok(EventPane { value: outer_html_at(s, "#eventpane") })
    }
}

impl crate::parser::Parser for EventPane {
    fn parse(s: &str) -> EhParseResult<EventPane> {
        EventPane::parse(s)
    }
}

} // verus!
