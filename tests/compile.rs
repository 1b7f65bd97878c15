use aheui::compile::Aheui;
use aheui::flow::{Flow, Reflect};
use aheui::ir::{Arith, CompileError, Op, Pos, Terminator};
use aheui::source::parse_rows;
use aheui::syllable::Hangul;

fn program(src: &str) -> Aheui {
    let chars: Vec<char> = src.chars().collect();
    Aheui::from_source(&chars, "m", "f").unwrap()
}

fn pos(x: usize, y: usize) -> Pos {
    Pos { x, y }
}

#[test]
fn halting_cell_has_no_successor_whatever_its_vowel() {
    for src in ["하", "햐", "허", "혀", "호", "효", "후", "휴", "희", "히"] {
        let a = program(src);
        let b = a.gen_bb(0, 0).unwrap();
        assert_eq!(b.term, Terminator::Halt, "{}", src);
        let c = src.chars().next().unwrap();
        assert_eq!(b.ops, vec![Op::Trace { x: 0, y: 0, c }, Op::ClearFlag]);
        let m = a.compile().unwrap();
        assert_eq!(m.blocks.len(), 1);
        assert_eq!(m.blocks[0][0].term, Terminator::Halt);
    }
}

#[test]
fn directional_vowels_branch_both_ways() {
    let a = program("아바나다\n자차타파");
    let b = a.gen_bb(0, 0).unwrap();
    assert_eq!(
        b.term,
        Terminator::Branch { flow: Flow::Right, forward: pos(1, 0), reverse: pos(3, 0) }
    );
    let a = program("야바나다");
    let b = a.gen_bb(0, 0).unwrap();
    assert_eq!(
        b.term,
        Terminator::Branch { flow: Flow::Right, forward: pos(2, 0), reverse: pos(2, 0) }
    );
    let a = program("우\n아\n아");
    let b = a.gen_bb(0, 0).unwrap();
    assert_eq!(
        b.term,
        Terminator::Branch { flow: Flow::Down, forward: pos(0, 1), reverse: pos(0, 2) }
    );
    let a = program("유\n아\n아");
    let b = a.gen_bb(0, 0).unwrap();
    assert_eq!(
        b.term,
        Terminator::Branch { flow: Flow::Down, forward: pos(0, 2), reverse: pos(0, 1) }
    );
}

#[test]
fn other_vowels_dispatch_on_the_flow_register() {
    let a = program("이아\n아아");
    let b = a.gen_bb(0, 0).unwrap();
    assert_eq!(
        b.term,
        Terminator::Dispatch {
            reflect: Reflect::Horizontal,
            left: pos(1, 0),
            right: pos(1, 0),
            up: pos(0, 1),
            down: pos(0, 1),
        }
    );
    let a = program("으");
    assert!(matches!(a.gen_bb(0, 0).unwrap().term, Terminator::Dispatch { reflect: Reflect::Vertical, .. }));
    let a = program("의");
    assert!(matches!(a.gen_bb(0, 0).unwrap().term, Terminator::Dispatch { reflect: Reflect::Both, .. }));
    let a = program("애");
    assert!(matches!(a.gen_bb(0, 0).unwrap().term, Terminator::Dispatch { reflect: Reflect::Keep, .. }));
}

#[test]
fn reflect_transforms_directions() {
    assert_eq!(Reflect::Horizontal.apply(Flow::Left), Flow::Right);
    assert_eq!(Reflect::Horizontal.apply(Flow::Up), Flow::Up);
    assert_eq!(Reflect::Vertical.apply(Flow::Up), Flow::Down);
    assert_eq!(Reflect::Vertical.apply(Flow::Right), Flow::Right);
    assert_eq!(Reflect::Both.apply(Flow::Down), Flow::Up);
    assert_eq!(Reflect::Keep.apply(Flow::Left), Flow::Left);
    assert_eq!(Flow::Left.reverse(), Flow::Right);
    assert_eq!(Flow::Up.code(), 2);
}

#[test]
fn initial_consonants_pick_operations() {
    let cases: [(char, Vec<Op>); 16] = [
        ('나', vec![Op::Arith(Arith::Div)]),
        ('다', vec![Op::Arith(Arith::Add)]),
        ('따', vec![Op::Arith(Arith::Mul)]),
        ('라', vec![Op::Arith(Arith::Mod)]),
        ('타', vec![Op::Arith(Arith::Sub)]),
        ('자', vec![Op::Arith(Arith::LessEq)]),
        ('망', vec![Op::PrintInt]),
        ('맣', vec![Op::PrintChar]),
        ('마', vec![Op::Discard]),
        ('방', vec![Op::ReadInt]),
        ('밯', vec![Op::ReadChar]),
        ('밟', vec![Op::Push(9)]),
        ('빠', vec![Op::Dup]),
        ('파', vec![Op::Swap]),
        ('상', vec![Op::Select(21)]),
        ('쌓', vec![Op::Transfer(27)]),
    ];
    for (c, want) in cases.iter() {
        let a = program(&c.to_string());
        let b = a.gen_bb(0, 0).unwrap();
        let mut all = vec![Op::Trace { x: 0, y: 0, c: *c }, Op::ClearFlag];
        all.extend(want.iter().cloned());
        assert_eq!(b.ops, all, "{}", c);
    }
    for c in ['가', '까', '아', '짜', '카'] {
        let b = program(&c.to_string()).gen_bb(0, 0).unwrap();
        assert_eq!(b.ops.len(), 2);
    }
    let b = program("차").gen_bb(0, 0).unwrap();
    assert_eq!(b.ops[2], Op::TestZero);
}

#[test]
fn test_before_reflect_is_rejected() {
    let a = program("아아\n아치\n츠아");
    assert_eq!(a.gen_bb(1, 1), Err(CompileError::TestBeforeReflect { x: 1, y: 1 }));
    assert_eq!(a.compile().err(), Some(CompileError::TestBeforeReflect { x: 1, y: 1 }));
    assert!(program("차").compile().is_ok());
}

#[test]
fn compile_lays_blocks_out_as_the_grid() {
    let a = program("아희희아희\n아희아희\n아희희");
    let m = a.compile().unwrap();
    assert_eq!(m.name, "m");
    assert_eq!(m.entry, "f");
    assert_eq!(m.blocks.iter().map(|r| r.len()).collect::<Vec<_>>(), vec![5, 4, 3]);
    for (y, row) in m.blocks.iter().enumerate() {
        for (x, b) in row.iter().enumerate() {
            assert_eq!((b.x, b.y), (x, y));
            assert_eq!(*b, a.gen_bb(x, y).unwrap());
        }
    }
}

#[test]
fn compiling_twice_gives_the_same_text() {
    let src = "밤밣따빠밣밟따뿌\n빠맣파빨받밤뚜뭏\n돋밬탕빠맣붏두붇\n볻뫃박발뚷투뭏붖\n뫃도뫃희멓뭏뭏붘\n뫃봌토범더벌뿌뚜\n뽑뽀멓멓더벓뻐뚠\n뽀덩벐멓뻐덕더벅";
    let first = program(src).compile().unwrap();
    let second = program(src).compile().unwrap();
    assert_eq!(first.blocks, second.blocks);
    assert_eq!(first.to_text(), second.to_text());
}

#[test]
fn text_of_a_one_cell_module() {
    let m = program("하").compile().unwrap();
    assert_eq!(
        m.to_text(),
        "module m\nfunction f flow down storage 0 start aheui_bb_0_0\naheui_bb_0_0:\n  trace 0 0 54616\n  clear_flag\n  halt\n"
    );
    let m = program("바망\n아").compile().unwrap();
    assert_eq!(
        m.to_text(),
        "module m\nfunction f flow down storage 0 start aheui_bb_0_0\n\
         aheui_bb_0_0:\n  trace 0 0 48148\n  clear_flag\n  push 0\n  branch right aheui_bb_1_0 aheui_bb_1_0\n\
         aheui_bb_1_0:\n  trace 1 0 47581\n  clear_flag\n  print_int\n  branch right aheui_bb_0_0 aheui_bb_0_0\n\
         aheui_bb_0_1:\n  trace 0 1 50500\n  clear_flag\n  branch right aheui_bb_0_1 aheui_bb_0_1\n"
    );
}

#[test]
fn text_is_split_into_lines() {
    let chars: Vec<char> = "아희\r\n\n하\r".chars().collect();
    let rows = parse_rows(&chars);
    assert_eq!(rows.len(), 3);
    assert_eq!(rows[0], vec![Hangul::from_char('아'), Hangul::from_char('희')]);
    assert!(rows[1].is_empty());
    assert_eq!(rows[2], vec![Hangul::from_char('하'), Hangul::from_char('\r')]);
    let chars: Vec<char> = "아\n".chars().collect();
    assert_eq!(parse_rows(&chars).len(), 1);
    assert!(parse_rows(&[]).is_empty());
    let chars: Vec<char> = "\n아".chars().collect();
    assert!(Aheui::from_source(&chars, "m", "f").is_none());
}
