//! Compiled patterns: what to ask of the engine, and what its answers mean.
//!
//! The engine is not called from here. Each operation has two halves. The
//! first says what to ask of the engine: [`Regex::new`] and its siblings for a
//! compilation, the functions whose names end in `_request` for a search or a
//! match. The second takes the engine's reply and says what it means:
//! [`CompileRequest::finish`], [`Regex::search_with_region`] and the rest.

use vstd::prelude::*;
use crate::captures::Captures;
use crate::encoding::Encoding;
use crate::error::Fault;
use crate::ll::CompileReply;
use crate::ll::CompileRequest;
use crate::ll::MatchRequest;
use crate::ll::SearchReply;
use crate::ll::SearchRequest;
use crate::ll::ONIG_MISMATCH;
use crate::ll::ONIG_NORMAL;
use crate::options::Options;
use crate::options::OPTION_NONE;
use crate::region::slot_span;
use crate::region::Region;
use crate::syntax::SyntaxChoice;
use crate::syntax::SyntaxPreset;

verus! {

/// The options and the dialect of a compilation.
#[derive(Clone, Copy, Debug)]
pub struct RegexConfig<'a> {
    pub options: Options,
    pub syntax: SyntaxChoice<'a>,
}

impl Default for RegexConfig<'static> {
    /// No option, and the Ruby syntax.
    fn default() -> (r: RegexConfig<'static>)
        ensures
            r.options@ == 0,
            r.syntax == SyntaxChoice::<'static>::Preset(SyntaxPreset::Ruby),
    {
        RegexConfig { options: OPTION_NONE(), syntax: SyntaxChoice::Preset(SyntaxPreset::Ruby) }
    }
}

/// A compiled Oniguruma regular expression.
///
/// A `Regex` stands for one compiled pattern of the engine, which it names by
/// its handle. There is no way to copy it, so the handle has one owner, who
/// frees it once.
#[derive(Debug)]
pub struct Regex {
    raw: usize,
    num_captures: usize,
    num_names: usize,
    num_capture_histories: usize,
}

impl<'a> CompileRequest<'a> {
    /// Whether a reply reports a compiled pattern: the engine returned the
    /// code for success, and the reply is one that its interface allows.
    pub open spec fn spec_compiled(reply: CompileReply) -> bool {
        reply.code == ONIG_NORMAL && reply.spec_sound()
    }

    /// The fault that a reply reports which reports no compiled pattern.
    pub open spec fn spec_fault(reply: CompileReply) -> Fault {
        if reply.code != ONIG_NORMAL {
            Fault::Compile { code: reply.code }
        } else {
            Fault::Malformed
        }
    }

    /// Turns the engine's reply to this request into the compiled pattern or
    /// into the fault that the reply reports.
    ///
    /// The result is a `Regex` if and only if the engine returned the code for
    /// success, with a handle that is not null and counts that are not
    /// negative. The `Regex` then owns that handle. Any other code is a
    /// compile fault with that code, and nothing is made of the handle.
    pub fn finish(&self, reply: CompileReply) -> (r: Result<Regex, Fault>)
        ensures
            r is Ok <==> Self::spec_compiled(reply),
            r matches Ok(regex) ==> {
                &&& regex.spec_handle() == reply.reg
                &&& regex.spec_handle() != 0
                &&& regex.spec_captures_len() == reply.num_captures
                &&& regex.spec_names_len() == reply.num_names
                &&& regex.spec_capture_histories_len() == reply.num_capture_histories
            },
            r matches Err(fault) ==> fault == Self::spec_fault(reply),
    {
        if reply.code != ONIG_NORMAL {
            Err(Fault::Compile { code: reply.code })
        } else if reply.reg == 0 || reply.num_captures < 0 || reply.num_names < 0
            || reply.num_capture_histories < 0 {
            Err(Fault::Malformed)
        } else {
            Ok(
                Regex {
                    raw: reply.reg,
                    num_captures: reply.num_captures as usize,
                    num_names: reply.num_names as usize,
                    num_capture_histories: reply.num_capture_histories as usize,
                },
            )
        }
    }
}

impl Regex {
    #[verifier::type_invariant]
    spec fn owns_handle(self) -> bool {
        self.raw != 0
    }

    /// The handle of the compiled pattern.
    pub closed spec fn spec_handle(&self) -> usize {
        self.raw
    }

    /// The number of capturing groups of the pattern.
    pub closed spec fn spec_captures_len(&self) -> usize {
        self.num_captures
    }

    /// The number of names of the pattern.
    pub closed spec fn spec_names_len(&self) -> usize {
        self.num_names
    }

    /// The number of groups of the pattern that record a capture history.
    pub closed spec fn spec_capture_histories_len(&self) -> usize {
        self.num_capture_histories
    }

    /// What a number returned by a search or a match means, given whether the
    /// reply that holds it is sound: a match at that number, no match, or a
    /// fault of the engine with that number as its code.
    pub open spec fn spec_outcome(status: i32, sound: bool) -> Result<Option<usize>, Fault> {
        if !sound {
            Err(Fault::Malformed)
        } else if status >= 0 {
            Ok(Some(status as usize))
        } else if status == ONIG_MISMATCH {
            Ok(None)
        } else {
            Err(Fault::Engine { code: status })
        }
    }

    /// What `reply` means as the answer to a search of `text`.
    pub open spec fn spec_search(&self, text: &str, reply: &SearchReply) -> Result<
        Option<usize>,
        Fault,
    > {
        Self::spec_outcome(reply.status, reply.spec_sound(text.len(), self.spec_captures_len()))
    }

    /// What `reply` means as the answer to a match tried at the first byte of
    /// `text`.
    pub open spec fn spec_match(&self, text: &str, reply: &SearchReply) -> Result<
        Option<usize>,
        Fault,
    > {
        Self::spec_outcome(
            reply.status,
            reply.spec_sound_match(text.len(), self.spec_captures_len()),
        )
    }

    /// What a region holds after a reply with the meaning `result` was put
    /// into it: where there is no fault, the slots and the capture history of
    /// the reply; where there is one, nothing. What it held before is gone in
    /// either case.
    pub open spec fn spec_filled(
        result: Result<Option<usize>, Fault>,
        reply: &SearchReply,
        region: &Region,
    ) -> bool {
        &&& region.wf()
        &&& result is Ok ==> {
            &&& region.slots() == reply.region.slots()
            &&& region.spec_tree() == reply.region.history_root
        }
        &&& result is Err ==> {
            &&& region.slots() == Seq::<(i32, i32)>::empty()
            &&& region.spec_tree() is None
        }
    }

    /// What `reply` means as the answer to a search of `text` of which only
    /// the span of the whole match is wanted.
    pub open spec fn spec_find(&self, text: &str, reply: &SearchReply) -> Result<
        Option<(usize, usize)>,
        Fault,
    > {
        match self.spec_search(text, reply) {
            Ok(Some(_)) => Ok(slot_span(reply.region.slots()[0])),
            Ok(None) => Ok(None),
            Err(fault) => Err(fault),
        }
    }

    /// What `reply` means as the answer to the question whether the pattern
    /// matches the whole of `text`.
    pub open spec fn spec_is_match(&self, text: &str, reply: &SearchReply) -> Result<bool, Fault> {
        match self.spec_match(text, reply) {
            Ok(Some(len)) => Ok(len == text.len()),
            Ok(None) => Ok(false),
            Err(fault) => Err(fault),
        }
    }

    /// Asks for the compilation of `pattern` with default options. Default
    /// syntax is `SYNTAX_RUBY`.
    ///
    /// Once compiled, it can be used repeatedly to search in a string. If an
    /// invalid expression is given, then the engine's reply is a fault.
    pub fn new<'a>(pattern: &'a str) -> (r: CompileRequest<'a>)
        ensures
            r.pattern@ == pattern@,
            r.options@ == 0,
            r.encoding == Encoding::Utf8,
            r.syntax == SyntaxChoice::<'a>::Preset(SyntaxPreset::Ruby),
    {
        Regex::new_with_options_and_syntax(
            pattern,
            OPTION_NONE(),
            SyntaxChoice::Preset(SyntaxPreset::Ruby),
        )
    }

    /// Asks for the compilation of `pattern` with `options` and the Ruby
    /// syntax.
    pub fn new_with_options<'a>(pattern: &'a str, options: Options) -> (r: CompileRequest<'a>)
        ensures
            r.pattern@ == pattern@,
            r.options == options,
            r.encoding == Encoding::Utf8,
            r.syntax == SyntaxChoice::<'a>::Preset(SyntaxPreset::Ruby),
    {
        Regex::new_with_options_and_syntax(
            pattern,
            options,
            SyntaxChoice::Preset(SyntaxPreset::Ruby),
        )
    }

    /// Asks for the compilation of `pattern` with default options and the
    /// dialect `syntax`.
    pub fn new_with_syntax<'a>(pattern: &'a str, syntax: SyntaxChoice<'a>) -> (r: CompileRequest<
        'a,
    >)
        ensures
            r.pattern@ == pattern@,
            r.options@ == 0,
            r.encoding == Encoding::Utf8,
            r.syntax == syntax,
    {
        Regex::new_with_options_and_syntax(pattern, OPTION_NONE(), syntax)
    }

    /// Asks for the compilation of `pattern` with `options` and the dialect
    /// `syntax`. The engine is handed the whole pattern, from its first byte
    /// to its last, as UTF-8.
    pub fn new_with_options_and_syntax<'a>(
        pattern: &'a str,
        options: Options,
        syntax: SyntaxChoice<'a>,
    ) -> (r: CompileRequest<'a>)
        ensures
            r.pattern@ == pattern@,
            r.options == options,
            r.encoding == Encoding::Utf8,
            r.syntax == syntax,
    {
        CompileRequest { pattern, options, encoding: Encoding::Utf8, syntax }
    }

    /// Asks for the compilation of `pattern` with the options and the dialect
    /// of `config`.
    pub fn new_with_config<'a>(pattern: &'a str, config: RegexConfig<'a>) -> (r: CompileRequest<
        'a,
    >)
        ensures
            r.pattern@ == pattern@,
            r.options == config.options,
            r.encoding == Encoding::Utf8,
            r.syntax == config.syntax,
    {
        Regex::new_with_options_and_syntax(pattern, config.options, config.syntax)
    }

    /// The handle of the compiled pattern. It is never null.
    pub fn handle(&self) -> (r: usize)
        ensures
            r == self.spec_handle(),
            r != 0,
    {
        proof {
            use_type_invariant(self);
        }
        self.raw
    }

    /// The number of capturing groups of the pattern.
    pub fn captures_len(&self) -> (r: usize)
        ensures
            r == self.spec_captures_len(),
    {
        self.num_captures
    }

    /// The number of groups of the pattern that record a capture history.
    pub fn capture_histories_len(&self) -> (r: usize)
        ensures
            r == self.spec_capture_histories_len(),
    {
        self.num_capture_histories
    }

    /// The number of names of the pattern.
    pub fn names_len(&self) -> (r: usize)
        ensures
            r == self.spec_names_len(),
    {
        self.num_names
    }

    /// Asks for the search that [`Regex::search_with_region`] reads: for the
    /// first match that begins anywhere in `text`, from its first byte to its
    /// end. `options` may hold the search time options `OPTION_NOTBOL` and
    /// `OPTION_NOTEOL`.
    pub fn search_request<'t>(&self, text: &'t str, options: Options) -> (r: SearchRequest<'t>)
        ensures
            r.reg == self.spec_handle(),
            r.text@ == text@,
            r.start == 0,
            r.range == text.len(),
            r.options == options,
    {
        SearchRequest { reg: self.raw, text, start: 0, range: text.len(), options }
    }

    /// Asks for the match that [`Regex::match_with_region`] reads: for a match
    /// that begins at the first byte of `text`. `options` may hold the search
    /// time options `OPTION_NOTBOL` and `OPTION_NOTEOL`.
    pub fn match_request<'t>(&self, text: &'t str, options: Options) -> (r: MatchRequest<'t>)
        ensures
            r.reg == self.spec_handle(),
            r.text@ == text@,
            r.at == 0,
            r.options == options,
    {
        MatchRequest { reg: self.raw, text, at: 0, options }
    }

    /// Asks for the search that [`Regex::captures`] reads: a search of the
    /// whole of `text` with default options.
    pub fn captures_request<'t>(&self, text: &'t str) -> (r: SearchRequest<'t>)
        ensures
            r.reg == self.spec_handle(),
            r.text@ == text@,
            r.start == 0,
            r.range == text.len(),
            r.options@ == 0,
    {
        self.search_request(text, OPTION_NONE())
    }

    /// Asks for the match that [`Regex::is_match`] reads: a match at the
    /// first byte of `text` with default options.
    pub fn is_match_request<'t>(&self, text: &'t str) -> (r: MatchRequest<'t>)
        ensures
            r.reg == self.spec_handle(),
            r.text@ == text@,
            r.at == 0,
            r.options@ == 0,
    {
        self.match_request(text, OPTION_NONE())
    }

    /// Asks for the search that [`Regex::find`] reads: a search of the whole
    /// of `text` with default options.
    pub fn find_request<'t>(&self, text: &'t str) -> (r: SearchRequest<'t>)
        ensures
            r.reg == self.spec_handle(),
            r.text@ == text@,
            r.start == 0,
            r.range == text.len(),
            r.options@ == 0,
    {
        self.search_request(text, OPTION_NONE())
    }

    /// Puts a reply into a region and says what its number means.
    fn fill(region: &mut Region, reply: SearchReply, sound: bool) -> (r: Result<
        Option<usize>,
        Fault,
    >)
        requires
            sound && reply.status >= ONIG_MISMATCH ==> reply.region.spec_ordered(),
        ensures
            r == Self::spec_outcome(reply.status, sound),
            Self::spec_filled(r, &reply, final(region)),
    {
        if !sound {
            region.clear();
            Err(Fault::Malformed)
        } else if reply.status >= 0 {
            let found = reply.status as usize;
            region.assign(reply.region);
            Ok(Some(found))
        } else if reply.status == ONIG_MISMATCH {
            region.assign(reply.region);
            Ok(None)
        } else {
            let code = reply.status;
            region.clear();
            Err(Fault::Engine { code })
        }
    }

    /// Search pattern in string and store search result into region object.
    ///
    /// `reply` is the engine's answer to [`Regex::search_request`] for `text`.
    /// Returns match position offset if pattern is found, otherwise return
    /// `None`. Whatever the region held is overwritten: where the reply is a
    /// match or no match, the region holds the slots and the capture history
    /// of the reply; where it is a fault, the region is empty.
    pub fn search_with_region(&self, text: &str, region: &mut Region, reply: SearchReply) -> (r:
        Result<Option<usize>, Fault>)
        ensures
            r == self.spec_search(text, &reply),
            Self::spec_filled(r, &reply, final(region)),
    {
        let sound = reply.sound(text.len(), self.num_captures);
        Self::fill(region, reply, sound)
    }

    /// Match string and store search result into region object.
    ///
    /// `reply` is the engine's answer to [`Regex::match_request`] for `text`.
    /// Returns match length if pattern is found, otherwise return `None`.
    /// Whatever the region held is overwritten, as a search overwrites it.
    pub fn match_with_region(&self, text: &str, region: &mut Region, reply: SearchReply) -> (r:
        Result<Option<usize>, Fault>)
        ensures
            r == self.spec_match(text, &reply),
            Self::spec_filled(r, &reply, final(region)),
    {
        let sound = reply.sound_match(text.len(), self.num_captures);
        Self::fill(region, reply, sound)
    }

    /// Returns the capture groups corresponding to the leftmost-first match
    /// in text. Capture group `0` always corresponds to the entire match.
    /// If no match is found, then `None` is returned.
    ///
    /// `reply` is the engine's answer to [`Regex::captures_request`] for
    /// `text`. A fault of the engine is returned as a fault.
    pub fn captures<'t>(&self, text: &'t str, reply: SearchReply) -> (r: Result<
        Option<Captures<'t>>,
        Fault,
    >)
        ensures
            match self.spec_search(text, &reply) {
                Ok(Some(_)) => {
                    &&& r matches Ok(Some(captures))
                    &&& captures.wf()
                    &&& captures.spec_text()@ == text@
                    &&& captures.slots() == reply.region.slots()
                },
                Ok(None) => r matches Ok(None),
                Err(fault) => r matches Err(other) && other == fault,
            },
    {
        let mut region = Region::new();
        match self.search_with_region(text, &mut region, reply) {
            Ok(Some(_)) => {
                proof {
                    assert forall|i: int| 0 <= i < region.slots().len() implies crate::ll::slot_within(
                        #[trigger] region.slots()[i],
                        text.len(),
                    ) by {
                        assert(crate::ll::slot_within(reply.region.slots()[i], text.len()));
                    }
                }
                Ok(Some(Captures::new(text, region)))
            },
            Ok(None) => Ok(None),
            Err(fault) => Err(fault),
        }
    }

    /// Returns true if and only if the regex matches the string given: the
    /// match that begins at its first byte is as long as the string.
    ///
    /// `reply` is the engine's answer to [`Regex::is_match_request`] for
    /// `text`. A fault of the engine is returned as a fault.
    pub fn is_match(&self, text: &str, reply: SearchReply) -> (r: Result<bool, Fault>)
        ensures
            r == self.spec_is_match(text, &reply),
    {
        let mut region = Region::new();
        match self.match_with_region(text, &mut region, reply) {
            Ok(Some(len)) => Ok(len == text.len()),
            Ok(None) => Ok(false),
            Err(fault) => Err(fault),
        }
    }

    /// Returns the start and end byte range of the leftmost-first match in
    /// `text`. If no match exists, then `None` is returned.
    ///
    /// `reply` is the engine's answer to [`Regex::find_request`] for `text`.
    /// A fault of the engine is returned as a fault.
    pub fn find(&self, text: &str, reply: SearchReply) -> (r: Result<Option<(usize, usize)>, Fault>)
        ensures
            r == self.spec_find(text, &reply),
    {
        let mut region = Region::new();
        match self.search_with_region(text, &mut region, reply) {
            Ok(Some(_)) => Ok(region.pos(0)),
            Ok(None) => Ok(None),
            Err(fault) => Err(fault),
        }
    }
}

/// A compilation yields a compiled pattern if and only if the engine
/// returned the code for success, with a handle that is not null and counts
/// that are not negative. Whenever the engine returned another code, the
/// compilation yields a compile fault with that code, which is not zero.
pub proof fn law_compile(reply: CompileReply)
    ensures
        CompileRequest::spec_compiled(reply) <==> reply.code == ONIG_NORMAL && reply.reg != 0
            && reply.num_captures >= 0 && reply.num_names >= 0 && reply.num_capture_histories
            >= 0,
        reply.code != ONIG_NORMAL ==> {
            &&& !CompileRequest::spec_compiled(reply)
            &&& CompileRequest::spec_fault(reply) == Fault::Compile { code: reply.code }
            &&& CompileRequest::spec_fault(reply).spec_code() matches Some(code) && code != 0
        },
{
}

/// `find` returns a span if and only if the search reports a match, it
/// returns no span if and only if the search reports none, and it fails with
/// the fault of the search. The span that it returns is the span of group 0 in
/// the region that the search has filled; it is ordered and lies in the text.
pub proof fn law_find_is_group_zero(regex: Regex, text: &str, reply: SearchReply, region: Region)
    requires
        Regex::spec_filled(regex.spec_search(text, &reply), &reply, &region),
    ensures
        regex.spec_find(text, &reply) matches Ok(Some(_)) <==> regex.spec_search(text, &reply)
            matches Ok(Some(_)),
        regex.spec_find(text, &reply) matches Ok(None) <==> regex.spec_search(text, &reply)
            matches Ok(None),
        regex.spec_find(text, &reply) matches Err(fault) ==> regex.spec_search(text, &reply)
            == Err::<Option<usize>, Fault>(fault),
        regex.spec_find(text, &reply) matches Ok(Some((beg, end))) ==> {
            &&& region.spec_pos(0) == Some((beg, end))
            &&& beg <= end <= text.len()
        },
{
    if regex.spec_search(text, &reply) matches Ok(Some(_)) {
        assert(crate::ll::slot_within(reply.region.slots()[0], text.len()));
    }
}

/// `is_match` is true if and only if the match tried at the first byte of the
/// text has the length of the text in bytes. The whole match then ends at the
/// end of the text.
pub proof fn law_is_match_whole_text(regex: Regex, text: &str, reply: SearchReply)
    ensures
        regex.spec_is_match(text, &reply) == Ok::<bool, Fault>(true) <==> regex.spec_match(
            text,
            &reply,
        ) == Ok::<Option<usize>, Fault>(Some(text.len())),
        regex.spec_is_match(text, &reply) == Ok::<bool, Fault>(true) ==> {
            &&& slot_span(reply.region.slots()[0]) matches Some((_, end))
            &&& end == text.len()
        },
        regex.spec_is_match(text, &reply) matches Err(fault) ==> regex.spec_match(text, &reply)
            == Err::<Option<usize>, Fault>(fault),
{
}

/// A search leaves in a region what the engine's reply holds and nothing of
/// what the region held before. So the search of a text with a pattern gives
/// the same offsets in a region that was used and cleared as in a fresh one.
pub proof fn law_search_overwrites(
    regex: Regex,
    text: &str,
    reply: SearchReply,
    reused: Region,
    fresh: Region,
)
    requires
        Regex::spec_filled(regex.spec_search(text, &reply), &reply, &reused),
        Regex::spec_filled(regex.spec_search(text, &reply), &reply, &fresh),
    ensures
        reused.slots() == fresh.slots(),
        reused@ == fresh@,
        reused.spec_tree() == fresh.spec_tree(),
        forall|pos: usize| reused.spec_pos(pos) == fresh.spec_pos(pos),
{
}

} // verus!
