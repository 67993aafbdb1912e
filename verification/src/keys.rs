use vstd::prelude::*;
use vstd::string::StrSliceExecFns;

verus! {

/// A key of the keyboard that the window reports.
#[derive(Clone, Copy, Debug, PartialEq, Eq, Structural)]
pub enum Key {
    ArrowDown,
    ArrowLeft,
    ArrowRight,
    ArrowUp,
    Escape,
    Tab,
    Backspace,
    Enter,
    Space,
    Insert,
    Delete,
    Home,
    End,
    PageUp,
    PageDown,
    Num0,
    Num1,
    Num2,
    Num3,
    Num4,
    Num5,
    Num6,
    Num7,
    Num8,
    Num9,
    A,
    B,
    C,
    D,
    E,
    F,
    G,
    H,
    I,
    J,
    K,
    L,
    M,
    N,
    O,
    P,
    Q,
    R,
    S,
    T,
    U,
    V,
    W,
    X,
    Y,
    Z,
}

/// The key named by a code for an arrow, editing or navigation key.
pub open spec fn navigation_key(code: Seq<char>) -> Option<Key> {
    if code == "ArrowDown"@ {
        Some(Key::ArrowDown)
    }     else if code == "ArrowLeft"@ {
        Some(Key::ArrowLeft)
    }     else if code == "ArrowRight"@ {
        Some(Key::ArrowRight)
    }     else if code == "ArrowUp"@ {
        Some(Key::ArrowUp)
    }     else if code == "Esc"@ {
        Some(Key::Escape)
    }     else if code == "Escape"@ {
        Some(Key::Escape)
    }     else if code == "Tab"@ {
        Some(Key::Tab)
    }     else if code == "Backspace"@ {
        Some(Key::Backspace)
    }     else if code == "Enter"@ {
        Some(Key::Enter)
    }     else if code == "Space"@ {
        Some(Key::Space)
    }     else if code == "Help"@ {
        Some(Key::Insert)
    }     else if code == "Insert"@ {
        Some(Key::Insert)
    }     else if code == "Delete"@ {
        Some(Key::Delete)
    }     else if code == "Home"@ {
        Some(Key::Home)
    }     else if code == "End"@ {
        Some(Key::End)
    }     else if code == "PageUp"@ {
        Some(Key::PageUp)
    }     else if code == "PageDown"@ {
        Some(Key::PageDown)
    } else {
        None
    }
}

/// The key named by a code for a digit.
pub open spec fn digit_key(code: Seq<char>) -> Option<Key> {
    if code == "0"@ {
        Some(Key::Num0)
    }     else if code == "1"@ {
        Some(Key::Num1)
    }     else if code == "2"@ {
        Some(Key::Num2)
    }     else if code == "3"@ {
        Some(Key::Num3)
    }     else if code == "4"@ {
        Some(Key::Num4)
    }     else if code == "5"@ {
        Some(Key::Num5)
    }     else if code == "6"@ {
        Some(Key::Num6)
    }     else if code == "7"@ {
        Some(Key::Num7)
    }     else if code == "8"@ {
        Some(Key::Num8)
    }     else if code == "9"@ {
        Some(Key::Num9)
    } else {
        None
    }
}

/// The key named by a code for a letter, in either case.
pub open spec fn letter_key(code: Seq<char>) -> Option<Key> {
    if code == "a"@ {
        Some(Key::A)
    }     else if code == "A"@ {
        Some(Key::A)
    }     else if code == "b"@ {
        Some(Key::B)
    }     else if code == "B"@ {
        Some(Key::B)
    }     else if code == "c"@ {
        Some(Key::C)
    }     else if code == "C"@ {
        Some(Key::C)
    }     else if code == "d"@ {
        Some(Key::D)
    }     else if code == "D"@ {
        Some(Key::D)
    }     else if code == "e"@ {
        Some(Key::E)
    }     else if code == "E"@ {
        Some(Key::E)
    }     else if code == "f"@ {
        Some(Key::F)
    }     else if code == "F"@ {
        Some(Key::F)
    }     else if code == "g"@ {
        Some(Key::G)
    }     else if code == "G"@ {
        Some(Key::G)
    }     else if code == "h"@ {
        Some(Key::H)
    }     else if code == "H"@ {
        Some(Key::H)
    }     else if code == "i"@ {
        Some(Key::I)
    }     else if code == "I"@ {
        Some(Key::I)
    }     else if code == "j"@ {
        Some(Key::J)
    }     else if code == "J"@ {
        Some(Key::J)
    }     else if code == "k"@ {
        Some(Key::K)
    }     else if code == "K"@ {
        Some(Key::K)
    }     else if code == "l"@ {
        Some(Key::L)
    }     else if code == "L"@ {
        Some(Key::L)
    }     else if code == "m"@ {
        Some(Key::M)
    }     else if code == "M"@ {
        Some(Key::M)
    }     else if code == "n"@ {
        Some(Key::N)
    }     else if code == "N"@ {
        Some(Key::N)
    }     else if code == "o"@ {
        Some(Key::O)
    }     else if code == "O"@ {
        Some(Key::O)
    }     else if code == "p"@ {
        Some(Key::P)
    }     else if code == "P"@ {
        Some(Key::P)
    }     else if code == "q"@ {
        Some(Key::Q)
    }     else if code == "Q"@ {
        Some(Key::Q)
    }     else if code == "r"@ {
        Some(Key::R)
    }     else if code == "R"@ {
        Some(Key::R)
    }     else if code == "s"@ {
        Some(Key::S)
    }     else if code == "S"@ {
        Some(Key::S)
    }     else if code == "t"@ {
        Some(Key::T)
    }     else if code == "T"@ {
        Some(Key::T)
    }     else if code == "u"@ {
        Some(Key::U)
    }     else if code == "U"@ {
        Some(Key::U)
    }     else if code == "v"@ {
        Some(Key::V)
    }     else if code == "V"@ {
        Some(Key::V)
    }     else if code == "w"@ {
        Some(Key::W)
    }     else if code == "W"@ {
        Some(Key::W)
    }     else if code == "x"@ {
        Some(Key::X)
    }     else if code == "X"@ {
        Some(Key::X)
    }     else if code == "y"@ {
        Some(Key::Y)
    }     else if code == "Y"@ {
        Some(Key::Y)
    }     else if code == "z"@ {
        Some(Key::Z)
    }     else if code == "Z"@ {
        Some(Key::Z)
    } else {
        None
    }
}

/// The key that a keyboard event code names, if the window knows it.
pub open spec fn key_for_code(code: Seq<char>) -> Option<Key> {
    match navigation_key(code) {
        Some(k) => Some(k),
        None => match digit_key(code) {
            Some(k) => Some(k),
            None => letter_key(code),
        },
    }
}

/// Looks a code up among the arrow, editing and navigation keys.
fn translate_navigation_key(code: &str) -> (r: Option<Key>)
    ensures
        r == navigation_key(code@),
{
    if str_equals(code, "ArrowDown") {
        Some(Key::ArrowDown)
    }     else if str_equals(code, "ArrowLeft") {
        Some(Key::ArrowLeft)
    }     else if str_equals(code, "ArrowRight") {
        Some(Key::ArrowRight)
    }     else if str_equals(code, "ArrowUp") {
        Some(Key::ArrowUp)
    }     else if str_equals(code, "Esc") {
        Some(Key::Escape)
    }     else if str_equals(code, "Escape") {
        Some(Key::Escape)
    }     else if str_equals(code, "Tab") {
        Some(Key::Tab)
    }     else if str_equals(code, "Backspace") {
        Some(Key::Backspace)
    }     else if str_equals(code, "Enter") {
        Some(Key::Enter)
    }     else if str_equals(code, "Space") {
        Some(Key::Space)
    }     else if str_equals(code, "Help") {
        Some(Key::Insert)
    }     else if str_equals(code, "Insert") {
        Some(Key::Insert)
    }     else if str_equals(code, "Delete") {
        Some(Key::Delete)
    }     else if str_equals(code, "Home") {
        Some(Key::Home)
    }     else if str_equals(code, "End") {
        Some(Key::End)
    }     else if str_equals(code, "PageUp") {
        Some(Key::PageUp)
    }     else if str_equals(code, "PageDown") {
        Some(Key::PageDown)
    } else {
        None
    }
}

/// Looks a code up among the digits.
fn translate_digit_key(code: &str) -> (r: Option<Key>)
    ensures
        r == digit_key(code@),
{
    if str_equals(code, "0") {
        Some(Key::Num0)
    }     else if str_equals(code, "1") {
        Some(Key::Num1)
    }     else if str_equals(code, "2") {
        Some(Key::Num2)
    }     else if str_equals(code, "3") {
        Some(Key::Num3)
    }     else if str_equals(code, "4") {
        Some(Key::Num4)
    }     else if str_equals(code, "5") {
        Some(Key::Num5)
    }     else if str_equals(code, "6") {
        Some(Key::Num6)
    }     else if str_equals(code, "7") {
        Some(Key::Num7)
    }     else if str_equals(code, "8") {
        Some(Key::Num8)
    }     else if str_equals(code, "9") {
        Some(Key::Num9)
    } else {
        None
    }
}

/// Looks a code up among the letters.
fn translate_letter_key(code: &str) -> (r: Option<Key>)
    ensures
        r == letter_key(code@),
{
    if str_equals(code, "a") {
        Some(Key::A)
    }     else if str_equals(code, "A") {
        Some(Key::A)
    }     else if str_equals(code, "b") {
        Some(Key::B)
    }     else if str_equals(code, "B") {
        Some(Key::B)
    }     else if str_equals(code, "c") {
        Some(Key::C)
    }     else if str_equals(code, "C") {
        Some(Key::C)
    }     else if str_equals(code, "d") {
        Some(Key::D)
    }     else if str_equals(code, "D") {
        Some(Key::D)
    }     else if str_equals(code, "e") {
        Some(Key::E)
    }     else if str_equals(code, "E") {
        Some(Key::E)
    }     else if str_equals(code, "f") {
        Some(Key::F)
    }     else if str_equals(code, "F") {
        Some(Key::F)
    }     else if str_equals(code, "g") {
        Some(Key::G)
    }     else if str_equals(code, "G") {
        Some(Key::G)
    }     else if str_equals(code, "h") {
        Some(Key::H)
    }     else if str_equals(code, "H") {
        Some(Key::H)
    }     else if str_equals(code, "i") {
        Some(Key::I)
    }     else if str_equals(code, "I") {
        Some(Key::I)
    }     else if str_equals(code, "j") {
        Some(Key::J)
    }     else if str_equals(code, "J") {
        Some(Key::J)
    }     else if str_equals(code, "k") {
        Some(Key::K)
    }     else if str_equals(code, "K") {
        Some(Key::K)
    }     else if str_equals(code, "l") {
        Some(Key::L)
    }     else if str_equals(code, "L") {
        Some(Key::L)
    }     else if str_equals(code, "m") {
        Some(Key::M)
    }     else if str_equals(code, "M") {
        Some(Key::M)
    }     else if str_equals(code, "n") {
        Some(Key::N)
    }     else if str_equals(code, "N") {
        Some(Key::N)
    }     else if str_equals(code, "o") {
        Some(Key::O)
    }     else if str_equals(code, "O") {
        Some(Key::O)
    }     else if str_equals(code, "p") {
        Some(Key::P)
    }     else if str_equals(code, "P") {
        Some(Key::P)
    }     else if str_equals(code, "q") {
        Some(Key::Q)
    }     else if str_equals(code, "Q") {
        Some(Key::Q)
    }     else if str_equals(code, "r") {
        Some(Key::R)
    }     else if str_equals(code, "R") {
        Some(Key::R)
    }     else if str_equals(code, "s") {
        Some(Key::S)
    }     else if str_equals(code, "S") {
        Some(Key::S)
    }     else if str_equals(code, "t") {
        Some(Key::T)
    }     else if str_equals(code, "T") {
        Some(Key::T)
    }     else if str_equals(code, "u") {
        Some(Key::U)
    }     else if str_equals(code, "U") {
        Some(Key::U)
    }     else if str_equals(code, "v") {
        Some(Key::V)
    }     else if str_equals(code, "V") {
        Some(Key::V)
    }     else if str_equals(code, "w") {
        Some(Key::W)
    }     else if str_equals(code, "W") {
        Some(Key::W)
    }     else if str_equals(code, "x") {
        Some(Key::X)
    }     else if str_equals(code, "X") {
        Some(Key::X)
    }     else if str_equals(code, "y") {
        Some(Key::Y)
    }     else if str_equals(code, "Y") {
        Some(Key::Y)
    }     else if str_equals(code, "z") {
        Some(Key::Z)
    }     else if str_equals(code, "Z") {
        Some(Key::Z)
    } else {
        None
    }
}

/// Translates the code of a keyboard event into the key it names; `None` for a code
/// the window does not report.
pub fn translate_key(key: &str) -> (r: Option<Key>)
    ensures
        r == key_for_code(key@),
{
    match translate_navigation_key(key) {
        Some(k) => Some(k),
        None => match translate_digit_key(key) {
            Some(k) => Some(k),
            None => translate_letter_key(key),
        },
    }
}

/// Whether two string slices hold the same characters.
fn str_equals(a: &str, b: &str) -> (r: bool)
    ensures
        r == (a@ == b@),
{
    let n = a.unicode_len();
    if n != b.unicode_len() {
        return false;
    }
    let mut i: usize = 0;
    while i < n
        invariant
            n == a@.len(),
            n == b@.len(),
            i <= n,
            forall|j: int| 0 <= j < i ==> a@[j] == b@[j],
        decreases n - i,
    {
        if a.get_char(i) != b.get_char(i) {
            return false;
        }
        i = i + 1;
    }
    assert(a@ =~= b@);
    true
}

/// The upper-case form of a lower-case ASCII letter.
pub open spec fn ascii_upper(c: char) -> char {
    ((c as u32) - 32) as char
}

/// A letter names the same key in lower and in upper case, and every letter names a key.
pub proof fn lemma_letters_ignore_case(c: char)
    requires
        'a' <= c <= 'z',
    ensures
        key_for_code(seq![c]) is Some,
        key_for_code(seq![c]) == key_for_code(seq![ascii_upper(c)]),
{
    assert(seq![c][0] == c);
    assert(seq![ascii_upper(c)][0] == ascii_upper(c));
    lemma_code_texts();
}


/// The texts of the codes that name keys: the long ones are longer than one
/// character, and the one-character ones are that character.
proof fn lemma_code_texts()
    ensures
        "ArrowDown"@.len() == 9,
        "ArrowLeft"@.len() == 9,
        "ArrowRight"@.len() == 10,
        "ArrowUp"@.len() == 7,
        "Esc"@.len() == 3,
        "Escape"@.len() == 6,
        "Tab"@.len() == 3,
        "Backspace"@.len() == 9,
        "Enter"@.len() == 5,
        "Space"@.len() == 5,
        "Help"@.len() == 4,
        "Insert"@.len() == 6,
        "Delete"@.len() == 6,
        "Home"@.len() == 4,
        "End"@.len() == 3,
        "PageUp"@.len() == 6,
        "PageDown"@.len() == 8,
        "0"@ == seq!['0'],
        "1"@ == seq!['1'],
        "2"@ == seq!['2'],
        "3"@ == seq!['3'],
        "4"@ == seq!['4'],
        "5"@ == seq!['5'],
        "6"@ == seq!['6'],
        "7"@ == seq!['7'],
        "8"@ == seq!['8'],
        "9"@ == seq!['9'],
        "a"@ == seq!['a'],
        "A"@ == seq!['A'],
        "b"@ == seq!['b'],
        "B"@ == seq!['B'],
        "c"@ == seq!['c'],
        "C"@ == seq!['C'],
        "d"@ == seq!['d'],
        "D"@ == seq!['D'],
        "e"@ == seq!['e'],
        "E"@ == seq!['E'],
        "f"@ == seq!['f'],
        "F"@ == seq!['F'],
        "g"@ == seq!['g'],
        "G"@ == seq!['G'],
        "h"@ == seq!['h'],
        "H"@ == seq!['H'],
        "i"@ == seq!['i'],
        "I"@ == seq!['I'],
        "j"@ == seq!['j'],
        "J"@ == seq!['J'],
        "k"@ == seq!['k'],
        "K"@ == seq!['K'],
        "l"@ == seq!['l'],
        "L"@ == seq!['L'],
        "m"@ == seq!['m'],
        "M"@ == seq!['M'],
        "n"@ == seq!['n'],
        "N"@ == seq!['N'],
        "o"@ == seq!['o'],
        "O"@ == seq!['O'],
        "p"@ == seq!['p'],
        "P"@ == seq!['P'],
        "q"@ == seq!['q'],
        "Q"@ == seq!['Q'],
        "r"@ == seq!['r'],
        "R"@ == seq!['R'],
        "s"@ == seq!['s'],
        "S"@ == seq!['S'],
        "t"@ == seq!['t'],
        "T"@ == seq!['T'],
        "u"@ == seq!['u'],
        "U"@ == seq!['U'],
        "v"@ == seq!['v'],
        "V"@ == seq!['V'],
        "w"@ == seq!['w'],
        "W"@ == seq!['W'],
        "x"@ == seq!['x'],
        "X"@ == seq!['X'],
        "y"@ == seq!['y'],
        "Y"@ == seq!['Y'],
        "z"@ == seq!['z'],
        "Z"@ == seq!['Z'],
{
    reveal_strlit("ArrowDown");
    reveal_strlit("ArrowLeft");
    reveal_strlit("ArrowRight");
    reveal_strlit("ArrowUp");
    reveal_strlit("Esc");
    reveal_strlit("Escape");
    reveal_strlit("Tab");
    reveal_strlit("Backspace");
    reveal_strlit("Enter");
    reveal_strlit("Space");
    reveal_strlit("Help");
    reveal_strlit("Insert");
    reveal_strlit("Delete");
    reveal_strlit("Home");
    reveal_strlit("End");
    reveal_strlit("PageUp");
    reveal_strlit("PageDown");
    reveal_strlit("0");
    assert("0"@ =~= seq!['0'] && "0"@[0] == '0');
    reveal_strlit("1");
    assert("1"@ =~= seq!['1'] && "1"@[0] == '1');
    reveal_strlit("2");
    assert("2"@ =~= seq!['2'] && "2"@[0] == '2');
    reveal_strlit("3");
    assert("3"@ =~= seq!['3'] && "3"@[0] == '3');
    reveal_strlit("4");
    assert("4"@ =~= seq!['4'] && "4"@[0] == '4');
    reveal_strlit("5");
    assert("5"@ =~= seq!['5'] && "5"@[0] == '5');
    reveal_strlit("6");
    assert("6"@ =~= seq!['6'] && "6"@[0] == '6');
    reveal_strlit("7");
    assert("7"@ =~= seq!['7'] && "7"@[0] == '7');
    reveal_strlit("8");
    assert("8"@ =~= seq!['8'] && "8"@[0] == '8');
    reveal_strlit("9");
    assert("9"@ =~= seq!['9'] && "9"@[0] == '9');
    reveal_strlit("a");
    assert("a"@ =~= seq!['a'] && "a"@[0] == 'a');
    reveal_strlit("A");
    assert("A"@ =~= seq!['A'] && "A"@[0] == 'A');
    reveal_strlit("b");
    assert("b"@ =~= seq!['b'] && "b"@[0] == 'b');
    reveal_strlit("B");
    assert("B"@ =~= seq!['B'] && "B"@[0] == 'B');
    reveal_strlit("c");
    assert("c"@ =~= seq!['c'] && "c"@[0] == 'c');
    reveal_strlit("C");
    assert("C"@ =~= seq!['C'] && "C"@[0] == 'C');
    reveal_strlit("d");
    assert("d"@ =~= seq!['d'] && "d"@[0] == 'd');
    reveal_strlit("D");
    assert("D"@ =~= seq!['D'] && "D"@[0] == 'D');
    reveal_strlit("e");
    assert("e"@ =~= seq!['e'] && "e"@[0] == 'e');
    reveal_strlit("E");
    assert("E"@ =~= seq!['E'] && "E"@[0] == 'E');
    reveal_strlit("f");
    assert("f"@ =~= seq!['f'] && "f"@[0] == 'f');
    reveal_strlit("F");
    assert("F"@ =~= seq!['F'] && "F"@[0] == 'F');
    reveal_strlit("g");
    assert("g"@ =~= seq!['g'] && "g"@[0] == 'g');
    reveal_strlit("G");
    assert("G"@ =~= seq!['G'] && "G"@[0] == 'G');
    reveal_strlit("h");
    assert("h"@ =~= seq!['h'] && "h"@[0] == 'h');
    reveal_strlit("H");
    assert("H"@ =~= seq!['H'] && "H"@[0] == 'H');
    reveal_strlit("i");
    assert("i"@ =~= seq!['i'] && "i"@[0] == 'i');
    reveal_strlit("I");
    assert("I"@ =~= seq!['I'] && "I"@[0] == 'I');
    reveal_strlit("j");
    assert("j"@ =~= seq!['j'] && "j"@[0] == 'j');
    reveal_strlit("J");
    assert("J"@ =~= seq!['J'] && "J"@[0] == 'J');
    reveal_strlit("k");
    assert("k"@ =~= seq!['k'] && "k"@[0] == 'k');
    reveal_strlit("K");
    assert("K"@ =~= seq!['K'] && "K"@[0] == 'K');
    reveal_strlit("l");
    assert("l"@ =~= seq!['l'] && "l"@[0] == 'l');
    reveal_strlit("L");
    assert("L"@ =~= seq!['L'] && "L"@[0] == 'L');
    reveal_strlit("m");
    assert("m"@ =~= seq!['m'] && "m"@[0] == 'm');
    reveal_strlit("M");
    assert("M"@ =~= seq!['M'] && "M"@[0] == 'M');
    reveal_strlit("n");
    assert("n"@ =~= seq!['n'] && "n"@[0] == 'n');
    reveal_strlit("N");
    assert("N"@ =~= seq!['N'] && "N"@[0] == 'N');
    reveal_strlit("o");
    assert("o"@ =~= seq!['o'] && "o"@[0] == 'o');
    reveal_strlit("O");
    assert("O"@ =~= seq!['O'] && "O"@[0] == 'O');
    reveal_strlit("p");
    assert("p"@ =~= seq!['p'] && "p"@[0] == 'p');
    reveal_strlit("P");
    assert("P"@ =~= seq!['P'] && "P"@[0] == 'P');
    reveal_strlit("q");
    assert("q"@ =~= seq!['q'] && "q"@[0] == 'q');
    reveal_strlit("Q");
    assert("Q"@ =~= seq!['Q'] && "Q"@[0] == 'Q');
    reveal_strlit("r");
    assert("r"@ =~= seq!['r'] && "r"@[0] == 'r');
    reveal_strlit("R");
    assert("R"@ =~= seq!['R'] && "R"@[0] == 'R');
    reveal_strlit("s");
    assert("s"@ =~= seq!['s'] && "s"@[0] == 's');
    reveal_strlit("S");
    assert("S"@ =~= seq!['S'] && "S"@[0] == 'S');
    reveal_strlit("t");
    assert("t"@ =~= seq!['t'] && "t"@[0] == 't');
    reveal_strlit("T");
    assert("T"@ =~= seq!['T'] && "T"@[0] == 'T');
    reveal_strlit("u");
    assert("u"@ =~= seq!['u'] && "u"@[0] == 'u');
    reveal_strlit("U");
    assert("U"@ =~= seq!['U'] && "U"@[0] == 'U');
    reveal_strlit("v");
    assert("v"@ =~= seq!['v'] && "v"@[0] == 'v');
    reveal_strlit("V");
    assert("V"@ =~= seq!['V'] && "V"@[0] == 'V');
    reveal_strlit("w");
    assert("w"@ =~= seq!['w'] && "w"@[0] == 'w');
    reveal_strlit("W");
    assert("W"@ =~= seq!['W'] && "W"@[0] == 'W');
    reveal_strlit("x");
    assert("x"@ =~= seq!['x'] && "x"@[0] == 'x');
    reveal_strlit("X");
    assert("X"@ =~= seq!['X'] && "X"@[0] == 'X');
    reveal_strlit("y");
    assert("y"@ =~= seq!['y'] && "y"@[0] == 'y');
    reveal_strlit("Y");
    assert("Y"@ =~= seq!['Y'] && "Y"@[0] == 'Y');
    reveal_strlit("z");
    assert("z"@ =~= seq!['z'] && "z"@[0] == 'z');
    reveal_strlit("Z");
    assert("Z"@ =~= seq!['Z'] && "Z"@[0] == 'Z');
}

/// The place of a letter key in the alphabet, counting from 0; -1 for other keys.
pub open spec fn letter_ordinal(k: Key) -> int {
    match k {
        Key::A => 0,
        Key::B => 1,
        Key::C => 2,
        Key::D => 3,
        Key::E => 4,
        Key::F => 5,
        Key::G => 6,
        Key::H => 7,
        Key::I => 8,
        Key::J => 9,
        Key::K => 10,
        Key::L => 11,
        Key::M => 12,
        Key::N => 13,
        Key::O => 14,
        Key::P => 15,
        Key::Q => 16,
        Key::R => 17,
        Key::S => 18,
        Key::T => 19,
        Key::U => 20,
        Key::V => 21,
        Key::W => 22,
        Key::X => 23,
        Key::Y => 24,
        Key::Z => 25,
        _ => -1,
    }
}

/// A lower-case letter names the letter key at its own place in the alphabet.
pub proof fn lemma_letter_names_its_own_key(c: char)
    requires
        'a' <= c <= 'z',
    ensures
        key_for_code(seq![c]) is Some,
        letter_ordinal(key_for_code(seq![c]).unwrap()) == c as int - 'a' as int,
{
    assert(seq![c][0] == c);
    lemma_code_texts();
}

/// Different letters name different keys, in either case.
pub proof fn lemma_letters_name_distinct_keys(c: char, d: char)
    requires
        'a' <= c <= 'z',
        'a' <= d <= 'z',
        c != d,
    ensures
        key_for_code(seq![c]) != key_for_code(seq![d]),
        key_for_code(seq![ascii_upper(c)]) != key_for_code(seq![ascii_upper(d)]),
        key_for_code(seq![c]) != key_for_code(seq![ascii_upper(d)]),
{
    lemma_letter_names_its_own_key(c);
    lemma_letter_names_its_own_key(d);
    lemma_letters_ignore_case(c);
    lemma_letters_ignore_case(d);
}


/// The value of a number key, from 0 to 9; -1 for other keys.
pub open spec fn digit_ordinal(k: Key) -> int {
    match k {
        Key::Num0 => 0,
        Key::Num1 => 1,
        Key::Num2 => 2,
        Key::Num3 => 3,
        Key::Num4 => 4,
        Key::Num5 => 5,
        Key::Num6 => 6,
        Key::Num7 => 7,
        Key::Num8 => 8,
        Key::Num9 => 9,
        _ => -1,
    }
}

/// A digit names the number key of its own value.
pub proof fn lemma_digit_names_its_own_key(c: char)
    requires
        '0' <= c <= '9',
    ensures
        key_for_code(seq![c]) is Some,
        digit_ordinal(key_for_code(seq![c]).unwrap()) == c as int - '0' as int,
{
    assert(seq![c][0] == c);
    lemma_code_texts();
}

} // verus!
