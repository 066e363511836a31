use oniguruma::{
    CaptureTreeNode, CompileReply, Encoding, Error, Fault, MetaCharTable, OnigRegion, Regex,
    RegexConfig, Region, SearchReply, Syntax, SyntaxChoice, SyntaxFields, SyntaxPreset,
    OPTION_IGNORECASE, OPTION_NONE, OPTION_NOTBOL, SYNTAX_OPERATOR_ATMARK_CAPTURE_HISTORY,
    SYNTAX_PERL, SYNTAX_RUBY,
};

/// The engine's answer to the compilation of a pattern that it accepts.
fn compiled(num_captures: i32, num_names: i32, num_capture_histories: i32) -> CompileReply {
    CompileReply { code: 0, reg: 0x5000, num_captures, num_names, num_capture_histories }
}

/// The engine's answer to a search or a match.
fn reply(status: i32, slots: &[(i32, i32)], history_root: Option<CaptureTreeNode>) -> SearchReply {
    SearchReply {
        status,
        region: OnigRegion {
            num_regs: slots.len() as i32,
            beg: slots.iter().map(|slot| slot.0).collect(),
            end: slots.iter().map(|slot| slot.1).collect(),
            history_root,
        },
    }
}

/// A syntax with the fields of a dialect close to the engine's Ruby preset.
fn ruby_like() -> Syntax {
    Syntax::from_fields(SyntaxFields {
        op: 0x7ff5_f756,
        op2: 0x000b_3bcb,
        behavior: 0x0300_03fb,
        options: 0,
        meta_char_table: MetaCharTable {
            esc: 0x5c,
            anychar: 0,
            anytime: 0,
            zero_or_one_time: 0,
            one_or_more_time: 0,
            anychar_anytime: 0,
        },
    })
}

#[test]
fn test_regex_create() {
    Regex::new(".*").finish(compiled(0, 0, 0)).unwrap();
}

#[test]
#[should_panic(expected = "Error(-223, invalid character property name {foo})")]
fn test_regex_invalid() {
    let refused =
        CompileReply { code: -223, reg: 0, num_captures: 0, num_names: 0, num_capture_histories: 0 };
    let fault = Regex::new("\\p{foo}").finish(refused).err().unwrap();
    let message = b"invalid character property name {foo}";
    let error = Error::new(fault.code().unwrap(), message, message.len() as i32).unwrap();
    panic!("Error({}, {})", error.code(), error.description());
}

#[test]
fn test_error_code() {
    let refused =
        CompileReply { code: -223, reg: 0, num_captures: 0, num_names: 0, num_capture_histories: 0 };
    match Regex::new("\\p{foo}").finish(refused) {
        Ok(..) => panic!("should fail"),
        Err(fault) => {
            let message = b"invalid character property name {foo}";
            let error = Error::new(fault.code().unwrap(), message, message.len() as i32).unwrap();
            assert_eq!(error.code(), -223)
        }
    }
}

#[test]
fn test_regex_search_with_region() {
    let mut region = Region::new();
    let regex = Regex::new("e(l+)").finish(compiled(1, 0, 0)).unwrap();
    let r = regex
        .search_with_region("hello", &mut region, reply(1, &[(1, 4), (2, 4)], None))
        .unwrap();
    assert!(region.tree().is_none());
    assert_eq!(r, Some(1));
    assert_eq!(region.len(), 2);
    let pos1 = region.pos(0).unwrap();
    let pos2 = region.pos(1).unwrap();
    assert_eq!(pos1, (1, 4));
    assert_eq!(pos2, (2, 4));
}

#[test]
fn test_regex_match_with_region() {
    let mut region = Region::new();
    let regex = Regex::new("he(l+)").finish(compiled(1, 0, 0)).unwrap();
    let r = regex
        .match_with_region("hello", &mut region, reply(4, &[(0, 4), (2, 4)], None))
        .unwrap();
    assert!(region.tree().is_none());
    assert_eq!(r, Some(4));
    assert_eq!(region.len(), 2);
    let pos1 = region.pos(0).unwrap();
    let pos2 = region.pos(1).unwrap();
    assert_eq!(pos1, (0, 4));
    assert_eq!(pos2, (2, 4));
}

#[test]
fn test_regex_captures() {
    let regex = Regex::new("e(l+)|(r+)").finish(compiled(2, 0, 0)).unwrap();
    let captures =
        regex.captures("hello", reply(1, &[(1, 4), (2, 4), (-1, -1)], None)).unwrap().unwrap();
    assert_eq!(captures.len(), 3);
    assert_eq!(captures.is_empty(), false);
    let pos1 = captures.pos(0).unwrap();
    let pos2 = captures.pos(1).unwrap();
    let pos3 = captures.pos(2);
    assert_eq!(pos1, (1, 4));
    assert_eq!(pos2, (2, 4));
    assert_eq!(pos3, None);
    let str1 = captures.at(0).unwrap();
    let str2 = captures.at(1).unwrap();
    let str3 = captures.at(2);
    assert_eq!(str1, "ell");
    assert_eq!(str2, "ll");
    assert_eq!(str3, None);
}

#[test]
fn test_regex_subcaptures() {
    let regex = Regex::new("e(l+)").finish(compiled(1, 0, 0)).unwrap();
    let captures = regex.captures("hello", reply(1, &[(1, 4), (2, 4)], None)).unwrap().unwrap();
    let mut groups = captures.iter();
    let mut caps = Vec::new();
    while let Some(group) = groups.next() {
        caps.push(group);
    }
    assert_eq!(caps[0], Some("ell"));
    assert_eq!(caps[1], Some("ll"));
    assert_eq!(caps.len(), 2);
}

#[test]
fn test_regex_subcapturespos() {
    let regex = Regex::new("e(l+)").finish(compiled(1, 0, 0)).unwrap();
    let captures = regex.captures("hello", reply(1, &[(1, 4), (2, 4)], None)).unwrap().unwrap();
    let mut groups = captures.iter_pos();
    let mut caps = Vec::new();
    while let Some(group) = groups.next() {
        caps.push(group);
    }
    assert_eq!(caps[0], Some((1, 4)));
    assert_eq!(caps[1], Some((2, 4)));
    assert_eq!(caps.len(), 2);
}

#[test]
fn test_regex_is_match() {
    let regex = Regex::new("he(l+)o").finish(compiled(1, 0, 0)).unwrap();
    assert!(regex.is_match("hello", reply(5, &[(0, 5), (2, 4)], None)).unwrap());
    assert!(!regex.is_match("hello 2.0", reply(5, &[(0, 5), (2, 4)], None)).unwrap());
}

#[test]
fn test_regex_find() {
    let regex = Regex::new("he(l+)o").finish(compiled(1, 0, 0)).unwrap();
    assert_eq!(
        regex.find("hey, hello!", reply(5, &[(5, 10), (7, 9)], None)).unwrap(),
        Some((5, 10))
    );
    assert_eq!(
        regex.find("hey, honey!", reply(-1, &[(-1, -1), (-1, -1)], None)).unwrap(),
        None
    );
}

#[test]
fn test_regex_search_with_region_tree() {
    let mut region = Region::new();
    let mut syntax = ruby_like().clone();
    syntax.enable_operators(SYNTAX_OPERATOR_ATMARK_CAPTURE_HISTORY());
    let request = Regex::new_with_config(
        "(?@a+(?@b+))|(?@c+(?@d+))",
        RegexConfig { syntax: SyntaxChoice::Custom(&syntax), options: OPTION_NONE() },
    );
    match request.syntax {
        SyntaxChoice::Custom(custom) => {
            assert!(custom.get_operators().contains(SYNTAX_OPERATOR_ATMARK_CAPTURE_HISTORY()))
        }
        SyntaxChoice::Preset(..) => panic!("the syntax of the configuration is asked for"),
    }
    let regex = request.finish(compiled(4, 0, 4)).unwrap();
    let group4 = CaptureTreeNode::new(4, 3, 4, Vec::new()).unwrap();
    let group3 = CaptureTreeNode::new(3, 2, 4, vec![group4]).unwrap();
    let root = CaptureTreeNode::new(0, 2, 4, vec![group3]).unwrap();
    let r = regex
        .search_with_region(
            "- cd aaabbb -",
            &mut region,
            reply(2, &[(2, 4), (-1, -1), (-1, -1), (2, 4), (3, 4)], Some(root)),
        )
        .unwrap();
    assert_eq!(r, Some(2));
    assert_eq!(region.len(), 5);

    let tree = region.tree().unwrap();

    assert_eq!(tree.len(), 1);
    assert_eq!(tree.group(), 0);
    assert_eq!(tree.pos(), (2, 4));

    assert_eq!(tree[0].len(), 1);
    assert_eq!(tree[0].group(), 3);
    assert_eq!(tree[0].pos(), (2, 4));

    assert_eq!(tree[0][0].len(), 0);
    assert_eq!(tree[0][0].group(), 4);
    assert_eq!(tree[0][0].pos(), (3, 4));
}

#[test]
fn test_regex_lens() {
    let regex = Regex::new("(he)(l+)(o)").finish(compiled(3, 0, 0)).unwrap();
    assert_eq!(regex.captures_len(), 3);
    assert_eq!(regex.names_len(), 0);
    assert_eq!(regex.capture_histories_len(), 0);
}

#[test]
fn compile_requests_say_what_is_compiled() {
    let plain = Regex::new("a+");
    assert_eq!(plain.pattern, "a+");
    assert_eq!(plain.options, OPTION_NONE());
    assert_eq!(plain.encoding, Encoding::Utf8);
    assert!(matches!(plain.syntax, SyntaxChoice::Preset(SyntaxPreset::Ruby)));

    let with_options = Regex::new_with_options("a+", OPTION_IGNORECASE());
    assert_eq!(with_options.pattern, "a+");
    assert_eq!(with_options.options.bits(), 1);
    assert!(matches!(with_options.syntax, SyntaxChoice::Preset(SyntaxPreset::Ruby)));

    let with_syntax = Regex::new_with_syntax("a+", SyntaxChoice::Preset(SYNTAX_PERL));
    assert_eq!(with_syntax.options.bits(), 0);
    assert!(matches!(with_syntax.syntax, SyntaxChoice::Preset(SyntaxPreset::Perl)));

    let syntax = ruby_like();
    let with_both = Regex::new_with_options_and_syntax(
        "a+",
        OPTION_IGNORECASE(),
        SyntaxChoice::Custom(&syntax),
    );
    assert_eq!(with_both.pattern, "a+");
    assert_eq!(with_both.options.bits(), 1);
    assert_eq!(with_both.encoding, Encoding::Utf8);
    match with_both.syntax {
        SyntaxChoice::Custom(custom) => assert_eq!(custom.fields(), syntax.fields()),
        SyntaxChoice::Preset(..) => panic!("the syntax that was given is asked for"),
    }

    let config = RegexConfig::default();
    assert_eq!(config.options.bits(), 0);
    assert!(matches!(config.syntax, SyntaxChoice::Preset(preset) if preset == SYNTAX_RUBY));
    let with_config = Regex::new_with_config("a+", config);
    assert_eq!(with_config.options.bits(), 0);
    assert!(matches!(with_config.syntax, SyntaxChoice::Preset(SyntaxPreset::Ruby)));
}

#[test]
fn compilation_succeeds_exactly_on_the_code_for_success() {
    let regex = Regex::new("a").finish(compiled(0, 0, 0)).unwrap();
    assert_eq!(regex.handle(), 0x5000);

    let refused =
        CompileReply { code: -223, reg: 0x5000, num_captures: 0, num_names: 0, num_capture_histories: 0 };
    assert_eq!(Regex::new("\\p{foo}").finish(refused).err(), Some(Fault::Compile { code: -223 }));
    let odd = CompileReply { code: 1, reg: 0x5000, num_captures: 0, num_names: 0, num_capture_histories: 0 };
    assert_eq!(Regex::new("a").finish(odd).err(), Some(Fault::Compile { code: 1 }));
}

#[test]
fn compilation_without_a_handle_is_malformed() {
    let null = CompileReply { code: 0, reg: 0, num_captures: 0, num_names: 0, num_capture_histories: 0 };
    assert_eq!(Regex::new("a").finish(null).err(), Some(Fault::Malformed));
    let negative =
        CompileReply { code: 0, reg: 0x5000, num_captures: -1, num_names: 0, num_capture_histories: 0 };
    assert_eq!(Regex::new("a").finish(negative).err(), Some(Fault::Malformed));
    let names = CompileReply { code: 0, reg: 0x5000, num_captures: 1, num_names: -2, num_capture_histories: 0 };
    assert_eq!(Regex::new("a").finish(names).err(), Some(Fault::Malformed));
    let histories =
        CompileReply { code: 0, reg: 0x5000, num_captures: 1, num_names: 0, num_capture_histories: -1 };
    assert_eq!(Regex::new("a").finish(histories).err(), Some(Fault::Malformed));
}

#[test]
fn search_requests_cover_the_whole_text() {
    let regex = Regex::new("l+").finish(compiled(0, 0, 0)).unwrap();
    let search = regex.search_request("héllo", OPTION_NOTBOL());
    assert_eq!(search.reg, 0x5000);
    assert_eq!(search.text, "héllo");
    assert_eq!(search.start, 0);
    assert_eq!(search.range, 6);
    assert_eq!(search.options.bits(), 512);

    let anchored = regex.match_request("héllo", OPTION_NOTBOL());
    assert_eq!(anchored.reg, 0x5000);
    assert_eq!(anchored.text, "héllo");
    assert_eq!(anchored.at, 0);
    assert_eq!(anchored.options.bits(), 512);

    let find = regex.find_request("hello");
    assert_eq!((find.reg, find.start, find.range, find.options.bits()), (0x5000, 0, 5, 0));
    let captures = regex.captures_request("hello");
    assert_eq!(
        (captures.reg, captures.start, captures.range, captures.options.bits()),
        (0x5000, 0, 5, 0)
    );
    let is_match = regex.is_match_request("hello");
    assert_eq!((is_match.reg, is_match.at, is_match.options.bits()), (0x5000, 0, 0));

    let empty = regex.search_request("", OPTION_NONE());
    assert_eq!((empty.start, empty.range), (0, 0));
}

#[test]
fn no_match_is_not_a_fault() {
    let regex = Regex::new("x(y)").finish(compiled(1, 0, 0)).unwrap();
    let mut region = Region::new();
    let r = regex.search_with_region("hello", &mut region, reply(-1, &[(-1, -1), (-1, -1)], None));
    assert_eq!(r, Ok(None));
    assert_eq!(region.len(), 2);
    assert_eq!(region.pos(0), None);
    assert_eq!(region.pos(1), None);
    let r = regex.match_with_region("hello", &mut region, reply(-1, &[(-1, -1), (-1, -1)], None));
    assert_eq!(r, Ok(None));
    assert_eq!(regex.is_match("hello", reply(-1, &[(-1, -1), (-1, -1)], None)), Ok(false));
    assert!(regex.captures("hello", reply(-1, &[(-1, -1), (-1, -1)], None)).unwrap().is_none());
}

#[test]
fn other_negative_numbers_are_engine_faults() {
    let regex = Regex::new("a(b)").finish(compiled(1, 0, 0)).unwrap();
    let mut region = Region::new();
    region.resize(4);
    let r = regex.search_with_region("ab", &mut region, reply(-5, &[(-1, -1), (-1, -1)], None));
    assert_eq!(r, Err(Fault::Engine { code: -5 }));
    assert_eq!(region.len(), 0);
    let r = regex.match_with_region("ab", &mut region, reply(-2, &[], None));
    assert_eq!(r, Err(Fault::Engine { code: -2 }));
    assert_eq!(regex.find("ab", reply(-15, &[], None)), Err(Fault::Engine { code: -15 }));
    assert_eq!(regex.is_match("ab", reply(-15, &[], None)), Err(Fault::Engine { code: -15 }));
    assert_eq!(
        regex.captures("ab", reply(-15, &[], None)).err(),
        Some(Fault::Engine { code: -15 })
    );
    // Of a reply that reports an error the region is not read.
    let r = regex.search_with_region("ab", &mut region, reply(-5, &[(9, 3)], None));
    assert_eq!(r, Err(Fault::Engine { code: -5 }));
}

#[test]
fn replies_that_the_interface_forbids_are_malformed() {
    let regex = Regex::new("a(b)").finish(compiled(1, 0, 0)).unwrap();
    let mut region = Region::new();
    // The whole match took no part.
    let r = regex.search_with_region("ab", &mut region, reply(0, &[(-1, -1), (1, 2)], None));
    assert_eq!(r, Err(Fault::Malformed));
    assert_eq!(region.len(), 0);
    // A slot ends before it begins.
    let r = regex.search_with_region("ab", &mut region, reply(0, &[(0, 2), (2, 1)], None));
    assert_eq!(r, Err(Fault::Malformed));
    // A slot ends behind the text.
    let r = regex.search_with_region("ab", &mut region, reply(0, &[(0, 3), (1, 2)], None));
    assert_eq!(r, Err(Fault::Malformed));
    // The number of slots is not one more than the number of groups.
    let r = regex.search_with_region("ab", &mut region, reply(0, &[(0, 2)], None));
    assert_eq!(r, Err(Fault::Malformed));
    let r = regex.search_with_region("ab", &mut region, reply(0, &[(0, 2), (1, 2), (1, 2)], None));
    assert_eq!(r, Err(Fault::Malformed));
    // The match begins behind the text.
    let r = regex.search_with_region("ab", &mut region, reply(3, &[(0, 2), (1, 2)], None));
    assert_eq!(r, Err(Fault::Malformed));
    // The arrays do not hold `num_regs` entries.
    let short = SearchReply {
        status: 0,
        region: OnigRegion { num_regs: 2, beg: vec![0, 1], end: vec![2], history_root: None },
    };
    assert_eq!(regex.search_with_region("ab", &mut region, short), Err(Fault::Malformed));
    let negative = SearchReply {
        status: -1,
        region: OnigRegion { num_regs: -1, beg: vec![], end: vec![], history_root: None },
    };
    assert_eq!(regex.search_with_region("ab", &mut region, negative), Err(Fault::Malformed));
    // A node of the capture history ends behind the text.
    let root = CaptureTreeNode::new(0, 0, 2, vec![CaptureTreeNode::new(1, 1, 3, vec![]).unwrap()]);
    let r = regex.search_with_region("ab", &mut region, reply(0, &[(0, 2), (1, 2)], root));
    assert_eq!(r, Err(Fault::Malformed));
    // No match, but a slot that lies outside the text.
    let r = regex.search_with_region("ab", &mut region, reply(-1, &[(0, 5), (-1, -1)], None));
    assert_eq!(r, Err(Fault::Malformed));
    // The length of a match is not where the whole match ends.
    let r = regex.match_with_region("ab", &mut region, reply(1, &[(0, 2), (1, 2)], None));
    assert_eq!(r, Err(Fault::Malformed));
    assert_eq!(regex.is_match("ab", reply(1, &[(0, 2), (1, 2)], None)), Err(Fault::Malformed));
    assert_eq!(regex.find("ab", reply(0, &[(0, 3), (1, 2)], None)), Err(Fault::Malformed));
    assert_eq!(
        regex.captures("ab", reply(0, &[(0, 3), (1, 2)], None)).err(),
        Some(Fault::Malformed)
    );
}

#[test]
fn a_search_overwrites_the_region() {
    let regex = Regex::new("e(l+)").finish(compiled(1, 0, 0)).unwrap();
    let mut fresh = Region::new();
    let first =
        regex.search_with_region("hello", &mut fresh, reply(1, &[(1, 4), (2, 4)], None)).unwrap();

    let tree_regex = Regex::new("(?@a)(b)(c)").finish(compiled(3, 0, 1)).unwrap();
    let mut reused = Region::new();
    let root = CaptureTreeNode::new(0, 0, 3, vec![CaptureTreeNode::new(1, 0, 1, vec![]).unwrap()]);
    tree_regex
        .search_with_region("abc", &mut reused, reply(0, &[(0, 3), (0, 1), (1, 2), (2, 3)], root))
        .unwrap();
    assert_eq!(reused.len(), 4);
    assert!(reused.tree().is_some());

    reused.clear();
    let second =
        regex.search_with_region("hello", &mut reused, reply(1, &[(1, 4), (2, 4)], None)).unwrap();
    assert_eq!(first, second);
    assert_eq!(reused.len(), fresh.len());
    for i in 0..4 {
        assert_eq!(reused.pos(i), fresh.pos(i));
    }
    assert!(reused.tree().is_none());

    // Without the call of `clear` nothing of the earlier search stays either.
    tree_regex
        .search_with_region("abc", &mut reused, reply(0, &[(0, 3), (0, 1), (1, 2), (2, 3)], None))
        .unwrap();
    regex.search_with_region("hello", &mut reused, reply(1, &[(1, 4), (2, 4)], None)).unwrap();
    assert_eq!(reused.len(), 2);
    assert_eq!(reused.pos(0), Some((1, 4)));
    assert_eq!(reused.pos(1), Some((2, 4)));
    assert_eq!(reused.pos(2), None);
}

#[test]
fn find_is_group_zero_of_the_search() {
    let regex = Regex::new("(l+)(x)?").finish(compiled(2, 0, 0)).unwrap();
    let mut region = Region::new();
    let searched = regex
        .search_with_region("hello", &mut region, reply(2, &[(2, 4), (2, 4), (-1, -1)], None))
        .unwrap();
    let found = regex.find("hello", reply(2, &[(2, 4), (2, 4), (-1, -1)], None)).unwrap();
    assert_eq!(searched, Some(2));
    assert_eq!(found, Some((2, 4)));
    assert_eq!(found, region.pos(0));
    let (beg, end) = found.unwrap();
    assert_eq!(&"hello"[beg..end], "ll");
}

#[test]
fn is_match_asks_for_the_whole_text() {
    let regex = Regex::new("a*").finish(compiled(0, 0, 0)).unwrap();
    assert_eq!(regex.is_match("", reply(0, &[(0, 0)], None)), Ok(true));
    assert_eq!(regex.is_match("aaa", reply(3, &[(0, 3)], None)), Ok(true));
    assert_eq!(regex.is_match("aab", reply(2, &[(0, 2)], None)), Ok(false));
    assert_eq!(regex.is_match("b", reply(0, &[(0, 0)], None)), Ok(false));
}

#[test]
fn an_empty_match_at_the_end_is_a_match() {
    let regex = Regex::new("$").finish(compiled(0, 0, 0)).unwrap();
    assert_eq!(regex.find("ab", reply(2, &[(2, 2)], None)), Ok(Some((2, 2))));
    let captures = regex.captures("ab", reply(2, &[(2, 2)], None)).unwrap().unwrap();
    assert_eq!(captures.at(0), Some(""));
}
