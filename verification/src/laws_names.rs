//! The documented key names and the keys they stand for.

use vstd::prelude::*;
use crate::keys::{key_for_name, named_key, InputKey};

verus! {

/// The stick directions and the triggers, by their README names and short aliases, stand for
/// their own inputs.
pub proof fn law_stick_and_trigger_names()
    ensures
        key_for_name("padlsup"@) == Some(InputKey::PadLSUp),
        key_for_name("lsup"@) == Some(InputKey::PadLSUp),
        key_for_name("padlsdown"@) == Some(InputKey::PadLSDown),
        key_for_name("lsdown"@) == Some(InputKey::PadLSDown),
        key_for_name("padlsleft"@) == Some(InputKey::PadLSLeft),
        key_for_name("lsleft"@) == Some(InputKey::PadLSLeft),
        key_for_name("padlsright"@) == Some(InputKey::PadLSRight),
        key_for_name("lsright"@) == Some(InputKey::PadLSRight),
        key_for_name("padrsup"@) == Some(InputKey::PadRSUp),
        key_for_name("rsup"@) == Some(InputKey::PadRSUp),
        key_for_name("padrsdown"@) == Some(InputKey::PadRSDown),
        key_for_name("rsdown"@) == Some(InputKey::PadRSDown),
        key_for_name("padrsleft"@) == Some(InputKey::PadRSLeft),
        key_for_name("rsleft"@) == Some(InputKey::PadRSLeft),
        key_for_name("padrsright"@) == Some(InputKey::PadRSRight),
        key_for_name("rsright"@) == Some(InputKey::PadRSRight),
        key_for_name("padlt"@) == Some(InputKey::PadLT),
        key_for_name("lt"@) == Some(InputKey::PadLT),
        key_for_name("padrt"@) == Some(InputKey::PadRT),
        key_for_name("rt"@) == Some(InputKey::PadRT),
{
    reveal_strlit("space");
    assert("space"@.len() == 5);
    reveal_strlit("tab");
    assert("tab"@.len() == 3);
    reveal_strlit("escape");
    assert("escape"@.len() == 6);
    reveal_strlit("esc");
    assert("esc"@.len() == 3);
    reveal_strlit("shift");
    assert("shift"@.len() == 5);
    reveal_strlit("ctrl");
    assert("ctrl"@.len() == 4);
    reveal_strlit("control");
    assert("control"@.len() == 7);
    reveal_strlit("alt");
    assert("alt"@.len() == 3);
    reveal_strlit("f1");
    assert("f1"@.len() == 2);
    reveal_strlit("f2");
    assert("f2"@.len() == 2);
    reveal_strlit("f3");
    assert("f3"@.len() == 2);
    reveal_strlit("f4");
    assert("f4"@.len() == 2);
    reveal_strlit("f5");
    assert("f5"@.len() == 2);
    reveal_strlit("f6");
    assert("f6"@.len() == 2);
    reveal_strlit("f7");
    assert("f7"@.len() == 2);
    reveal_strlit("f8");
    assert("f8"@.len() == 2);
    reveal_strlit("f9");
    assert("f9"@.len() == 2);
    reveal_strlit("f10");
    assert("f10"@.len() == 3);
    reveal_strlit("f11");
    assert("f11"@.len() == 3);
    reveal_strlit("f12");
    assert("f12"@.len() == 3);
    reveal_strlit("f13");
    assert("f13"@.len() == 3);
    reveal_strlit("f14");
    assert("f14"@.len() == 3);
    reveal_strlit("f15");
    assert("f15"@.len() == 3);
    reveal_strlit("f16");
    assert("f16"@.len() == 3);
    reveal_strlit("f17");
    assert("f17"@.len() == 3);
    reveal_strlit("f18");
    assert("f18"@.len() == 3);
    reveal_strlit("f19");
    assert("f19"@.len() == 3);
    reveal_strlit("f20");
    assert("f20"@.len() == 3);
    reveal_strlit("f21");
    assert("f21"@.len() == 3);
    reveal_strlit("f22");
    assert("f22"@.len() == 3);
    reveal_strlit("f23");
    assert("f23"@.len() == 3);
    reveal_strlit("f24");
    assert("f24"@.len() == 3);
    reveal_strlit("lthumbpress");
    assert("lthumbpress"@.len() == 11);
    reveal_strlit("lthumb");
    assert("lthumb"@.len() == 6);
    reveal_strlit("padlthumb");
    assert("padlthumb"@.len() == 9);
    reveal_strlit("l3");
    assert("l3"@.len() == 2);
    reveal_strlit("rthumbpress");
    assert("rthumbpress"@.len() == 11);
    reveal_strlit("rthumb");
    assert("rthumb"@.len() == 6);
    reveal_strlit("padrthumb");
    assert("padrthumb"@.len() == 9);
    reveal_strlit("r3");
    assert("r3"@.len() == 2);
    reveal_strlit("xa");
    assert("xa"@.len() == 2);
    reveal_strlit("pada");
    assert("pada"@.len() == 4);
    reveal_strlit("xb");
    assert("xb"@.len() == 2);
    reveal_strlit("padb");
    assert("padb"@.len() == 4);
    reveal_strlit("xx");
    assert("xx"@.len() == 2);
    reveal_strlit("padx");
    assert("padx"@.len() == 4);
    reveal_strlit("xy");
    assert("xy"@.len() == 2);
    reveal_strlit("pady");
    assert("pady"@.len() == 4);
    reveal_strlit("lb");
    assert("lb"@.len() == 2);
    reveal_strlit("padlb");
    assert("padlb"@.len() == 5);
    reveal_strlit("rb");
    assert("rb"@.len() == 2);
    reveal_strlit("padrb");
    assert("padrb"@.len() == 5);
    reveal_strlit("lt");
    assert("lt"@.len() == 2);
    reveal_strlit("padlt");
    assert("padlt"@.len() == 5);
    reveal_strlit("rt");
    assert("rt"@.len() == 2);
    reveal_strlit("padrt");
    assert("padrt"@.len() == 5);
    reveal_strlit("start");
    assert("start"@.len() == 5);
    reveal_strlit("padstart");
    assert("padstart"@.len() == 8);
    reveal_strlit("back");
    assert("back"@.len() == 4);
    reveal_strlit("padback");
    assert("padback"@.len() == 7);
    reveal_strlit("dpadup");
    assert("dpadup"@.len() == 6);
    reveal_strlit("paddpadup");
    assert("paddpadup"@.len() == 9);
    reveal_strlit("dpaddown");
    assert("dpaddown"@.len() == 8);
    reveal_strlit("paddpaddown");
    assert("paddpaddown"@.len() == 11);
    reveal_strlit("dpadleft");
    assert("dpadleft"@.len() == 8);
    reveal_strlit("paddpadleft");
    assert("paddpadleft"@.len() == 11);
    reveal_strlit("dpadright");
    assert("dpadright"@.len() == 9);
    reveal_strlit("paddpadright");
    assert("paddpadright"@.len() == 12);
    reveal_strlit("lsup");
    assert("lsup"@.len() == 4);
    reveal_strlit("padlsup");
    assert("padlsup"@.len() == 7);
    reveal_strlit("lsdown");
    assert("lsdown"@.len() == 6);
    reveal_strlit("padlsdown");
    assert("padlsdown"@.len() == 9);
    reveal_strlit("lsleft");
    assert("lsleft"@.len() == 6);
    reveal_strlit("padlsleft");
    assert("padlsleft"@.len() == 9);
    reveal_strlit("lsright");
    assert("lsright"@.len() == 7);
    reveal_strlit("padlsright");
    assert("padlsright"@.len() == 10);
    reveal_strlit("rsup");
    assert("rsup"@.len() == 4);
    reveal_strlit("padrsup");
    assert("padrsup"@.len() == 7);
    reveal_strlit("rsdown");
    assert("rsdown"@.len() == 6);
    reveal_strlit("padrsdown");
    assert("padrsdown"@.len() == 9);
    reveal_strlit("rsleft");
    assert("rsleft"@.len() == 6);
    reveal_strlit("padrsleft");
    assert("padrsleft"@.len() == 9);
    reveal_strlit("rsright");
    assert("rsright"@.len() == 7);
    reveal_strlit("padrsright");
    assert("padrsright"@.len() == 10);
    assert("padlsup"@[0] != "control"@[0]);
    assert("padlsup"@[3] != "padback"@[3]);
    assert("lsup"@[0] != "ctrl"@[0]);
    assert("lsup"@[0] != "pada"@[0]);
    assert("lsup"@[0] != "padb"@[0]);
    assert("lsup"@[0] != "padx"@[0]);
    assert("lsup"@[0] != "pady"@[0]);
    assert("lsup"@[0] != "back"@[0]);
    assert("padlsdown"@[4] != "padlthumb"@[4]);
    assert("padlsdown"@[3] != "padrthumb"@[3]);
    assert("padlsdown"@[3] != "paddpadup"@[3]);
    assert("padlsdown"@[0] != "dpadright"@[0]);
    assert("lsdown"@[0] != "escape"@[0]);
    assert("lsdown"@[1] != "lthumb"@[1]);
    assert("lsdown"@[0] != "rthumb"@[0]);
    assert("lsdown"@[0] != "dpadup"@[0]);
    assert("padlsleft"@[4] != "padlthumb"@[4]);
    assert("padlsleft"@[3] != "padrthumb"@[3]);
    assert("padlsleft"@[3] != "paddpadup"@[3]);
    assert("padlsleft"@[0] != "dpadright"@[0]);
    assert("padlsleft"@[5] != "padlsdown"@[5]);
    assert("lsleft"@[0] != "escape"@[0]);
    assert("lsleft"@[1] != "lthumb"@[1]);
    assert("lsleft"@[0] != "rthumb"@[0]);
    assert("lsleft"@[0] != "dpadup"@[0]);
    assert("lsleft"@[2] != "lsdown"@[2]);
    assert("lsright"@[0] != "control"@[0]);
    assert("lsright"@[0] != "padback"@[0]);
    assert("lsright"@[0] != "padlsup"@[0]);
    assert("padrsup"@[0] != "control"@[0]);
    assert("padrsup"@[3] != "padback"@[3]);
    assert("padrsup"@[3] != "padlsup"@[3]);
    assert("padrsup"@[0] != "lsright"@[0]);
    assert("rsup"@[0] != "ctrl"@[0]);
    assert("rsup"@[0] != "pada"@[0]);
    assert("rsup"@[0] != "padb"@[0]);
    assert("rsup"@[0] != "padx"@[0]);
    assert("rsup"@[0] != "pady"@[0]);
    assert("rsup"@[0] != "back"@[0]);
    assert("rsup"@[0] != "lsup"@[0]);
    assert("padrsdown"@[3] != "padlthumb"@[3]);
    assert("padrsdown"@[4] != "padrthumb"@[4]);
    assert("padrsdown"@[3] != "paddpadup"@[3]);
    assert("padrsdown"@[0] != "dpadright"@[0]);
    assert("padrsdown"@[3] != "padlsdown"@[3]);
    assert("padrsdown"@[3] != "padlsleft"@[3]);
    assert("rsdown"@[0] != "escape"@[0]);
    assert("rsdown"@[0] != "lthumb"@[0]);
    assert("rsdown"@[1] != "rthumb"@[1]);
    assert("rsdown"@[0] != "dpadup"@[0]);
    assert("rsdown"@[0] != "lsdown"@[0]);
    assert("rsdown"@[0] != "lsleft"@[0]);
    assert("padrsleft"@[3] != "padlthumb"@[3]);
    assert("padrsleft"@[4] != "padrthumb"@[4]);
    assert("padrsleft"@[3] != "paddpadup"@[3]);
    assert("padrsleft"@[0] != "dpadright"@[0]);
    assert("padrsleft"@[3] != "padlsdown"@[3]);
    assert("padrsleft"@[3] != "padlsleft"@[3]);
    assert("padrsleft"@[5] != "padrsdown"@[5]);
    assert("rsleft"@[0] != "escape"@[0]);
    assert("rsleft"@[0] != "lthumb"@[0]);
    assert("rsleft"@[1] != "rthumb"@[1]);
    assert("rsleft"@[0] != "dpadup"@[0]);
    assert("rsleft"@[0] != "lsdown"@[0]);
    assert("rsleft"@[0] != "lsleft"@[0]);
    assert("rsleft"@[2] != "rsdown"@[2]);
    assert("padrsright"@[3] != "padlsright"@[3]);
    assert("rsright"@[0] != "control"@[0]);
    assert("rsright"@[0] != "padback"@[0]);
    assert("rsright"@[0] != "padlsup"@[0]);
    assert("rsright"@[0] != "lsright"@[0]);
    assert("rsright"@[0] != "padrsup"@[0]);
    assert("padlt"@[0] != "space"@[0]);
    assert("padlt"@[0] != "shift"@[0]);
    assert("padlt"@[4] != "padlb"@[4]);
    assert("padlt"@[3] != "padrb"@[3]);
    assert("lt"@[0] != "f1"@[0]);
    assert("lt"@[0] != "f2"@[0]);
    assert("lt"@[0] != "f3"@[0]);
    assert("lt"@[0] != "f4"@[0]);
    assert("lt"@[0] != "f5"@[0]);
    assert("lt"@[0] != "f6"@[0]);
    assert("lt"@[0] != "f7"@[0]);
    assert("lt"@[0] != "f8"@[0]);
    assert("lt"@[0] != "f9"@[0]);
    assert("lt"@[1] != "l3"@[1]);
    assert("lt"@[0] != "r3"@[0]);
    assert("lt"@[0] != "xa"@[0]);
    assert("lt"@[0] != "xb"@[0]);
    assert("lt"@[0] != "xx"@[0]);
    assert("lt"@[0] != "xy"@[0]);
    assert("lt"@[1] != "lb"@[1]);
    assert("lt"@[0] != "rb"@[0]);
    assert("padrt"@[0] != "space"@[0]);
    assert("padrt"@[0] != "shift"@[0]);
    assert("padrt"@[3] != "padlb"@[3]);
    assert("padrt"@[4] != "padrb"@[4]);
    assert("padrt"@[3] != "padlt"@[3]);
    assert("rt"@[0] != "f1"@[0]);
    assert("rt"@[0] != "f2"@[0]);
    assert("rt"@[0] != "f3"@[0]);
    assert("rt"@[0] != "f4"@[0]);
    assert("rt"@[0] != "f5"@[0]);
    assert("rt"@[0] != "f6"@[0]);
    assert("rt"@[0] != "f7"@[0]);
    assert("rt"@[0] != "f8"@[0]);
    assert("rt"@[0] != "f9"@[0]);
    assert("rt"@[0] != "l3"@[0]);
    assert("rt"@[1] != "r3"@[1]);
    assert("rt"@[0] != "xa"@[0]);
    assert("rt"@[0] != "xb"@[0]);
    assert("rt"@[0] != "xx"@[0]);
    assert("rt"@[0] != "xy"@[0]);
    assert("rt"@[0] != "lb"@[0]);
    assert("rt"@[1] != "rb"@[1]);
    assert("rt"@[0] != "lt"@[0]);
}

/// The pad buttons, by their README names and aliases, stand for their XInput button bits.
pub proof fn law_pad_button_names()
    ensures
        key_for_name("pada"@) == Some(InputKey::PadButton(0x1000)),
        key_for_name("xa"@) == Some(InputKey::PadButton(0x1000)),
        key_for_name("padb"@) == Some(InputKey::PadButton(0x2000)),
        key_for_name("xb"@) == Some(InputKey::PadButton(0x2000)),
        key_for_name("padx"@) == Some(InputKey::PadButton(0x4000)),
        key_for_name("xx"@) == Some(InputKey::PadButton(0x4000)),
        key_for_name("pady"@) == Some(InputKey::PadButton(0x8000)),
        key_for_name("xy"@) == Some(InputKey::PadButton(0x8000)),
        key_for_name("padlb"@) == Some(InputKey::PadButton(0x0100)),
        key_for_name("lb"@) == Some(InputKey::PadButton(0x0100)),
        key_for_name("padrb"@) == Some(InputKey::PadButton(0x0200)),
        key_for_name("rb"@) == Some(InputKey::PadButton(0x0200)),
        key_for_name("padstart"@) == Some(InputKey::PadButton(0x0010)),
        key_for_name("start"@) == Some(InputKey::PadButton(0x0010)),
        key_for_name("padback"@) == Some(InputKey::PadButton(0x0020)),
        key_for_name("back"@) == Some(InputKey::PadButton(0x0020)),
        key_for_name("lthumbpress"@) == Some(InputKey::PadButton(0x0040)),
        key_for_name("lthumb"@) == Some(InputKey::PadButton(0x0040)),
        key_for_name("rthumbpress"@) == Some(InputKey::PadButton(0x0080)),
        key_for_name("rthumb"@) == Some(InputKey::PadButton(0x0080)),
        key_for_name("paddpadup"@) == Some(InputKey::PadButton(0x0001)),
        key_for_name("paddpaddown"@) == Some(InputKey::PadButton(0x0002)),
        key_for_name("paddpadleft"@) == Some(InputKey::PadButton(0x0004)),
        key_for_name("paddpadright"@) == Some(InputKey::PadButton(0x0008)),
{
    reveal_strlit("space");
    assert("space"@.len() == 5);
    reveal_strlit("tab");
    assert("tab"@.len() == 3);
    reveal_strlit("escape");
    assert("escape"@.len() == 6);
    reveal_strlit("esc");
    assert("esc"@.len() == 3);
    reveal_strlit("shift");
    assert("shift"@.len() == 5);
    reveal_strlit("ctrl");
    assert("ctrl"@.len() == 4);
    reveal_strlit("control");
    assert("control"@.len() == 7);
    reveal_strlit("alt");
    assert("alt"@.len() == 3);
    reveal_strlit("f1");
    assert("f1"@.len() == 2);
    reveal_strlit("f2");
    assert("f2"@.len() == 2);
    reveal_strlit("f3");
    assert("f3"@.len() == 2);
    reveal_strlit("f4");
    assert("f4"@.len() == 2);
    reveal_strlit("f5");
    assert("f5"@.len() == 2);
    reveal_strlit("f6");
    assert("f6"@.len() == 2);
    reveal_strlit("f7");
    assert("f7"@.len() == 2);
    reveal_strlit("f8");
    assert("f8"@.len() == 2);
    reveal_strlit("f9");
    assert("f9"@.len() == 2);
    reveal_strlit("f10");
    assert("f10"@.len() == 3);
    reveal_strlit("f11");
    assert("f11"@.len() == 3);
    reveal_strlit("f12");
    assert("f12"@.len() == 3);
    reveal_strlit("f13");
    assert("f13"@.len() == 3);
    reveal_strlit("f14");
    assert("f14"@.len() == 3);
    reveal_strlit("f15");
    assert("f15"@.len() == 3);
    reveal_strlit("f16");
    assert("f16"@.len() == 3);
    reveal_strlit("f17");
    assert("f17"@.len() == 3);
    reveal_strlit("f18");
    assert("f18"@.len() == 3);
    reveal_strlit("f19");
    assert("f19"@.len() == 3);
    reveal_strlit("f20");
    assert("f20"@.len() == 3);
    reveal_strlit("f21");
    assert("f21"@.len() == 3);
    reveal_strlit("f22");
    assert("f22"@.len() == 3);
    reveal_strlit("f23");
    assert("f23"@.len() == 3);
    reveal_strlit("f24");
    assert("f24"@.len() == 3);
    reveal_strlit("lthumbpress");
    assert("lthumbpress"@.len() == 11);
    reveal_strlit("lthumb");
    assert("lthumb"@.len() == 6);
    reveal_strlit("padlthumb");
    assert("padlthumb"@.len() == 9);
    reveal_strlit("l3");
    assert("l3"@.len() == 2);
    reveal_strlit("rthumbpress");
    assert("rthumbpress"@.len() == 11);
    reveal_strlit("rthumb");
    assert("rthumb"@.len() == 6);
    reveal_strlit("padrthumb");
    assert("padrthumb"@.len() == 9);
    reveal_strlit("r3");
    assert("r3"@.len() == 2);
    reveal_strlit("xa");
    assert("xa"@.len() == 2);
    reveal_strlit("pada");
    assert("pada"@.len() == 4);
    reveal_strlit("xb");
    assert("xb"@.len() == 2);
    reveal_strlit("padb");
    assert("padb"@.len() == 4);
    reveal_strlit("xx");
    assert("xx"@.len() == 2);
    reveal_strlit("padx");
    assert("padx"@.len() == 4);
    reveal_strlit("xy");
    assert("xy"@.len() == 2);
    reveal_strlit("pady");
    assert("pady"@.len() == 4);
    reveal_strlit("lb");
    assert("lb"@.len() == 2);
    reveal_strlit("padlb");
    assert("padlb"@.len() == 5);
    reveal_strlit("rb");
    assert("rb"@.len() == 2);
    reveal_strlit("padrb");
    assert("padrb"@.len() == 5);
    reveal_strlit("lt");
    assert("lt"@.len() == 2);
    reveal_strlit("padlt");
    assert("padlt"@.len() == 5);
    reveal_strlit("rt");
    assert("rt"@.len() == 2);
    reveal_strlit("padrt");
    assert("padrt"@.len() == 5);
    reveal_strlit("start");
    assert("start"@.len() == 5);
    reveal_strlit("padstart");
    assert("padstart"@.len() == 8);
    reveal_strlit("back");
    assert("back"@.len() == 4);
    reveal_strlit("padback");
    assert("padback"@.len() == 7);
    reveal_strlit("dpadup");
    assert("dpadup"@.len() == 6);
    reveal_strlit("paddpadup");
    assert("paddpadup"@.len() == 9);
    reveal_strlit("dpaddown");
    assert("dpaddown"@.len() == 8);
    reveal_strlit("paddpaddown");
    assert("paddpaddown"@.len() == 11);
    reveal_strlit("dpadleft");
    assert("dpadleft"@.len() == 8);
    reveal_strlit("paddpadleft");
    assert("paddpadleft"@.len() == 11);
    reveal_strlit("dpadright");
    assert("dpadright"@.len() == 9);
    reveal_strlit("paddpadright");
    assert("paddpadright"@.len() == 12);
    assert("pada"@[0] != "ctrl"@[0]);
    assert("xa"@[0] != "f1"@[0]);
    assert("xa"@[0] != "f2"@[0]);
    assert("xa"@[0] != "f3"@[0]);
    assert("xa"@[0] != "f4"@[0]);
    assert("xa"@[0] != "f5"@[0]);
    assert("xa"@[0] != "f6"@[0]);
    assert("xa"@[0] != "f7"@[0]);
    assert("xa"@[0] != "f8"@[0]);
    assert("xa"@[0] != "f9"@[0]);
    assert("xa"@[0] != "l3"@[0]);
    assert("xa"@[0] != "r3"@[0]);
    assert("padb"@[0] != "ctrl"@[0]);
    assert("padb"@[3] != "pada"@[3]);
    assert("xb"@[0] != "f1"@[0]);
    assert("xb"@[0] != "f2"@[0]);
    assert("xb"@[0] != "f3"@[0]);
    assert("xb"@[0] != "f4"@[0]);
    assert("xb"@[0] != "f5"@[0]);
    assert("xb"@[0] != "f6"@[0]);
    assert("xb"@[0] != "f7"@[0]);
    assert("xb"@[0] != "f8"@[0]);
    assert("xb"@[0] != "f9"@[0]);
    assert("xb"@[0] != "l3"@[0]);
    assert("xb"@[0] != "r3"@[0]);
    assert("xb"@[1] != "xa"@[1]);
    assert("padx"@[0] != "ctrl"@[0]);
    assert("padx"@[3] != "pada"@[3]);
    assert("padx"@[3] != "padb"@[3]);
    assert("xx"@[0] != "f1"@[0]);
    assert("xx"@[0] != "f2"@[0]);
    assert("xx"@[0] != "f3"@[0]);
    assert("xx"@[0] != "f4"@[0]);
    assert("xx"@[0] != "f5"@[0]);
    assert("xx"@[0] != "f6"@[0]);
    assert("xx"@[0] != "f7"@[0]);
    assert("xx"@[0] != "f8"@[0]);
    assert("xx"@[0] != "f9"@[0]);
    assert("xx"@[0] != "l3"@[0]);
    assert("xx"@[0] != "r3"@[0]);
    assert("xx"@[1] != "xa"@[1]);
    assert("xx"@[1] != "xb"@[1]);
    assert("pady"@[0] != "ctrl"@[0]);
    assert("pady"@[3] != "pada"@[3]);
    assert("pady"@[3] != "padb"@[3]);
    assert("pady"@[3] != "padx"@[3]);
    assert("xy"@[0] != "f1"@[0]);
    assert("xy"@[0] != "f2"@[0]);
    assert("xy"@[0] != "f3"@[0]);
    assert("xy"@[0] != "f4"@[0]);
    assert("xy"@[0] != "f5"@[0]);
    assert("xy"@[0] != "f6"@[0]);
    assert("xy"@[0] != "f7"@[0]);
    assert("xy"@[0] != "f8"@[0]);
    assert("xy"@[0] != "f9"@[0]);
    assert("xy"@[0] != "l3"@[0]);
    assert("xy"@[0] != "r3"@[0]);
    assert("xy"@[1] != "xa"@[1]);
    assert("xy"@[1] != "xb"@[1]);
    assert("xy"@[1] != "xx"@[1]);
    assert("padlb"@[0] != "space"@[0]);
    assert("padlb"@[0] != "shift"@[0]);
    assert("lb"@[0] != "f1"@[0]);
    assert("lb"@[0] != "f2"@[0]);
    assert("lb"@[0] != "f3"@[0]);
    assert("lb"@[0] != "f4"@[0]);
    assert("lb"@[0] != "f5"@[0]);
    assert("lb"@[0] != "f6"@[0]);
    assert("lb"@[0] != "f7"@[0]);
    assert("lb"@[0] != "f8"@[0]);
    assert("lb"@[0] != "f9"@[0]);
    assert("lb"@[1] != "l3"@[1]);
    assert("lb"@[0] != "r3"@[0]);
    assert("lb"@[0] != "xa"@[0]);
    assert("lb"@[0] != "xb"@[0]);
    assert("lb"@[0] != "xx"@[0]);
    assert("lb"@[0] != "xy"@[0]);
    assert("padrb"@[0] != "space"@[0]);
    assert("padrb"@[0] != "shift"@[0]);
    assert("padrb"@[3] != "padlb"@[3]);
    assert("rb"@[0] != "f1"@[0]);
    assert("rb"@[0] != "f2"@[0]);
    assert("rb"@[0] != "f3"@[0]);
    assert("rb"@[0] != "f4"@[0]);
    assert("rb"@[0] != "f5"@[0]);
    assert("rb"@[0] != "f6"@[0]);
    assert("rb"@[0] != "f7"@[0]);
    assert("rb"@[0] != "f8"@[0]);
    assert("rb"@[0] != "f9"@[0]);
    assert("rb"@[0] != "l3"@[0]);
    assert("rb"@[1] != "r3"@[1]);
    assert("rb"@[0] != "xa"@[0]);
    assert("rb"@[0] != "xb"@[0]);
    assert("rb"@[0] != "xx"@[0]);
    assert("rb"@[0] != "xy"@[0]);
    assert("rb"@[0] != "lb"@[0]);
    assert("start"@[1] != "space"@[1]);
    assert("start"@[1] != "shift"@[1]);
    assert("start"@[0] != "padlb"@[0]);
    assert("start"@[0] != "padrb"@[0]);
    assert("start"@[0] != "padlt"@[0]);
    assert("start"@[0] != "padrt"@[0]);
    assert("padback"@[0] != "control"@[0]);
    assert("back"@[0] != "ctrl"@[0]);
    assert("back"@[0] != "pada"@[0]);
    assert("back"@[0] != "padb"@[0]);
    assert("back"@[0] != "padx"@[0]);
    assert("back"@[0] != "pady"@[0]);
    assert("lthumb"@[0] != "escape"@[0]);
    assert("rthumbpress"@[0] != "lthumbpress"@[0]);
    assert("rthumb"@[0] != "escape"@[0]);
    assert("rthumb"@[0] != "lthumb"@[0]);
    assert("paddpadup"@[3] != "padlthumb"@[3]);
    assert("paddpadup"@[3] != "padrthumb"@[3]);
    assert("paddpaddown"@[0] != "lthumbpress"@[0]);
    assert("paddpaddown"@[0] != "rthumbpress"@[0]);
    assert("paddpadleft"@[0] != "lthumbpress"@[0]);
    assert("paddpadleft"@[0] != "rthumbpress"@[0]);
    assert("paddpadleft"@[7] != "paddpaddown"@[7]);
}

/// The named keyboard keys stand for their virtual keys: Space 0x20, Tab 0x09, Esc 0x1B,
/// Shift 0x10, Ctrl 0x11, Alt 0x12, and F1 to F24 for 0x70 to 0x87.
pub proof fn law_keyboard_key_names()
    ensures
        key_for_name("space"@) == Some(InputKey::Keyboard(0x20)),
        key_for_name("tab"@) == Some(InputKey::Keyboard(0x09)),
        key_for_name("esc"@) == Some(InputKey::Keyboard(0x1B)),
        key_for_name("escape"@) == Some(InputKey::Keyboard(0x1B)),
        key_for_name("shift"@) == Some(InputKey::Keyboard(0x10)),
        key_for_name("ctrl"@) == Some(InputKey::Keyboard(0x11)),
        key_for_name("control"@) == Some(InputKey::Keyboard(0x11)),
        key_for_name("alt"@) == Some(InputKey::Keyboard(0x12)),
        key_for_name("f1"@) == Some(InputKey::Keyboard(0x70)),
        key_for_name("f2"@) == Some(InputKey::Keyboard(0x71)),
        key_for_name("f3"@) == Some(InputKey::Keyboard(0x72)),
        key_for_name("f4"@) == Some(InputKey::Keyboard(0x73)),
        key_for_name("f5"@) == Some(InputKey::Keyboard(0x74)),
        key_for_name("f6"@) == Some(InputKey::Keyboard(0x75)),
        key_for_name("f7"@) == Some(InputKey::Keyboard(0x76)),
        key_for_name("f8"@) == Some(InputKey::Keyboard(0x77)),
        key_for_name("f9"@) == Some(InputKey::Keyboard(0x78)),
        key_for_name("f10"@) == Some(InputKey::Keyboard(0x79)),
        key_for_name("f11"@) == Some(InputKey::Keyboard(0x7A)),
        key_for_name("f12"@) == Some(InputKey::Keyboard(0x7B)),
        key_for_name("f13"@) == Some(InputKey::Keyboard(0x7C)),
        key_for_name("f14"@) == Some(InputKey::Keyboard(0x7D)),
        key_for_name("f15"@) == Some(InputKey::Keyboard(0x7E)),
        key_for_name("f16"@) == Some(InputKey::Keyboard(0x7F)),
        key_for_name("f17"@) == Some(InputKey::Keyboard(0x80)),
        key_for_name("f18"@) == Some(InputKey::Keyboard(0x81)),
        key_for_name("f19"@) == Some(InputKey::Keyboard(0x82)),
        key_for_name("f20"@) == Some(InputKey::Keyboard(0x83)),
        key_for_name("f21"@) == Some(InputKey::Keyboard(0x84)),
        key_for_name("f22"@) == Some(InputKey::Keyboard(0x85)),
        key_for_name("f23"@) == Some(InputKey::Keyboard(0x86)),
        key_for_name("f24"@) == Some(InputKey::Keyboard(0x87)),
{
    reveal_strlit("space");
    assert("space"@.len() == 5);
    reveal_strlit("tab");
    assert("tab"@.len() == 3);
    reveal_strlit("escape");
    assert("escape"@.len() == 6);
    reveal_strlit("esc");
    assert("esc"@.len() == 3);
    reveal_strlit("shift");
    assert("shift"@.len() == 5);
    reveal_strlit("ctrl");
    assert("ctrl"@.len() == 4);
    reveal_strlit("control");
    assert("control"@.len() == 7);
    reveal_strlit("alt");
    assert("alt"@.len() == 3);
    reveal_strlit("f1");
    assert("f1"@.len() == 2);
    reveal_strlit("f2");
    assert("f2"@.len() == 2);
    reveal_strlit("f3");
    assert("f3"@.len() == 2);
    reveal_strlit("f4");
    assert("f4"@.len() == 2);
    reveal_strlit("f5");
    assert("f5"@.len() == 2);
    reveal_strlit("f6");
    assert("f6"@.len() == 2);
    reveal_strlit("f7");
    assert("f7"@.len() == 2);
    reveal_strlit("f8");
    assert("f8"@.len() == 2);
    reveal_strlit("f9");
    assert("f9"@.len() == 2);
    reveal_strlit("f10");
    assert("f10"@.len() == 3);
    reveal_strlit("f11");
    assert("f11"@.len() == 3);
    reveal_strlit("f12");
    assert("f12"@.len() == 3);
    reveal_strlit("f13");
    assert("f13"@.len() == 3);
    reveal_strlit("f14");
    assert("f14"@.len() == 3);
    reveal_strlit("f15");
    assert("f15"@.len() == 3);
    reveal_strlit("f16");
    assert("f16"@.len() == 3);
    reveal_strlit("f17");
    assert("f17"@.len() == 3);
    reveal_strlit("f18");
    assert("f18"@.len() == 3);
    reveal_strlit("f19");
    assert("f19"@.len() == 3);
    reveal_strlit("f20");
    assert("f20"@.len() == 3);
    reveal_strlit("f21");
    assert("f21"@.len() == 3);
    reveal_strlit("f22");
    assert("f22"@.len() == 3);
    reveal_strlit("f23");
    assert("f23"@.len() == 3);
    reveal_strlit("f24");
    assert("f24"@.len() == 3);
    assert("esc"@[0] != "tab"@[0]);
    assert("shift"@[1] != "space"@[1]);
    assert("alt"@[0] != "tab"@[0]);
    assert("alt"@[0] != "esc"@[0]);
    assert("f2"@[1] != "f1"@[1]);
    assert("f3"@[1] != "f1"@[1]);
    assert("f3"@[1] != "f2"@[1]);
    assert("f4"@[1] != "f1"@[1]);
    assert("f4"@[1] != "f2"@[1]);
    assert("f4"@[1] != "f3"@[1]);
    assert("f5"@[1] != "f1"@[1]);
    assert("f5"@[1] != "f2"@[1]);
    assert("f5"@[1] != "f3"@[1]);
    assert("f5"@[1] != "f4"@[1]);
    assert("f6"@[1] != "f1"@[1]);
    assert("f6"@[1] != "f2"@[1]);
    assert("f6"@[1] != "f3"@[1]);
    assert("f6"@[1] != "f4"@[1]);
    assert("f6"@[1] != "f5"@[1]);
    assert("f7"@[1] != "f1"@[1]);
    assert("f7"@[1] != "f2"@[1]);
    assert("f7"@[1] != "f3"@[1]);
    assert("f7"@[1] != "f4"@[1]);
    assert("f7"@[1] != "f5"@[1]);
    assert("f7"@[1] != "f6"@[1]);
    assert("f8"@[1] != "f1"@[1]);
    assert("f8"@[1] != "f2"@[1]);
    assert("f8"@[1] != "f3"@[1]);
    assert("f8"@[1] != "f4"@[1]);
    assert("f8"@[1] != "f5"@[1]);
    assert("f8"@[1] != "f6"@[1]);
    assert("f8"@[1] != "f7"@[1]);
    assert("f9"@[1] != "f1"@[1]);
    assert("f9"@[1] != "f2"@[1]);
    assert("f9"@[1] != "f3"@[1]);
    assert("f9"@[1] != "f4"@[1]);
    assert("f9"@[1] != "f5"@[1]);
    assert("f9"@[1] != "f6"@[1]);
    assert("f9"@[1] != "f7"@[1]);
    assert("f9"@[1] != "f8"@[1]);
    assert("f10"@[0] != "tab"@[0]);
    assert("f10"@[0] != "esc"@[0]);
    assert("f10"@[0] != "alt"@[0]);
    assert("f11"@[0] != "tab"@[0]);
    assert("f11"@[0] != "esc"@[0]);
    assert("f11"@[0] != "alt"@[0]);
    assert("f11"@[2] != "f10"@[2]);
    assert("f12"@[0] != "tab"@[0]);
    assert("f12"@[0] != "esc"@[0]);
    assert("f12"@[0] != "alt"@[0]);
    assert("f12"@[2] != "f10"@[2]);
    assert("f12"@[2] != "f11"@[2]);
    assert("f13"@[0] != "tab"@[0]);
    assert("f13"@[0] != "esc"@[0]);
    assert("f13"@[0] != "alt"@[0]);
    assert("f13"@[2] != "f10"@[2]);
    assert("f13"@[2] != "f11"@[2]);
    assert("f13"@[2] != "f12"@[2]);
    assert("f14"@[0] != "tab"@[0]);
    assert("f14"@[0] != "esc"@[0]);
    assert("f14"@[0] != "alt"@[0]);
    assert("f14"@[2] != "f10"@[2]);
    assert("f14"@[2] != "f11"@[2]);
    assert("f14"@[2] != "f12"@[2]);
    assert("f14"@[2] != "f13"@[2]);
    assert("f15"@[0] != "tab"@[0]);
    assert("f15"@[0] != "esc"@[0]);
    assert("f15"@[0] != "alt"@[0]);
    assert("f15"@[2] != "f10"@[2]);
    assert("f15"@[2] != "f11"@[2]);
    assert("f15"@[2] != "f12"@[2]);
    assert("f15"@[2] != "f13"@[2]);
    assert("f15"@[2] != "f14"@[2]);
    assert("f16"@[0] != "tab"@[0]);
    assert("f16"@[0] != "esc"@[0]);
    assert("f16"@[0] != "alt"@[0]);
    assert("f16"@[2] != "f10"@[2]);
    assert("f16"@[2] != "f11"@[2]);
    assert("f16"@[2] != "f12"@[2]);
    assert("f16"@[2] != "f13"@[2]);
    assert("f16"@[2] != "f14"@[2]);
    assert("f16"@[2] != "f15"@[2]);
    assert("f17"@[0] != "tab"@[0]);
    assert("f17"@[0] != "esc"@[0]);
    assert("f17"@[0] != "alt"@[0]);
    assert("f17"@[2] != "f10"@[2]);
    assert("f17"@[2] != "f11"@[2]);
    assert("f17"@[2] != "f12"@[2]);
    assert("f17"@[2] != "f13"@[2]);
    assert("f17"@[2] != "f14"@[2]);
    assert("f17"@[2] != "f15"@[2]);
    assert("f17"@[2] != "f16"@[2]);
    assert("f18"@[0] != "tab"@[0]);
    assert("f18"@[0] != "esc"@[0]);
    assert("f18"@[0] != "alt"@[0]);
    assert("f18"@[2] != "f10"@[2]);
    assert("f18"@[2] != "f11"@[2]);
    assert("f18"@[2] != "f12"@[2]);
    assert("f18"@[2] != "f13"@[2]);
    assert("f18"@[2] != "f14"@[2]);
    assert("f18"@[2] != "f15"@[2]);
    assert("f18"@[2] != "f16"@[2]);
    assert("f18"@[2] != "f17"@[2]);
    assert("f19"@[0] != "tab"@[0]);
    assert("f19"@[0] != "esc"@[0]);
    assert("f19"@[0] != "alt"@[0]);
    assert("f19"@[2] != "f10"@[2]);
    assert("f19"@[2] != "f11"@[2]);
    assert("f19"@[2] != "f12"@[2]);
    assert("f19"@[2] != "f13"@[2]);
    assert("f19"@[2] != "f14"@[2]);
    assert("f19"@[2] != "f15"@[2]);
    assert("f19"@[2] != "f16"@[2]);
    assert("f19"@[2] != "f17"@[2]);
    assert("f19"@[2] != "f18"@[2]);
    assert("f20"@[0] != "tab"@[0]);
    assert("f20"@[0] != "esc"@[0]);
    assert("f20"@[0] != "alt"@[0]);
    assert("f20"@[1] != "f10"@[1]);
    assert("f20"@[1] != "f11"@[1]);
    assert("f20"@[1] != "f12"@[1]);
    assert("f20"@[1] != "f13"@[1]);
    assert("f20"@[1] != "f14"@[1]);
    assert("f20"@[1] != "f15"@[1]);
    assert("f20"@[1] != "f16"@[1]);
    assert("f20"@[1] != "f17"@[1]);
    assert("f20"@[1] != "f18"@[1]);
    assert("f20"@[1] != "f19"@[1]);
    assert("f21"@[0] != "tab"@[0]);
    assert("f21"@[0] != "esc"@[0]);
    assert("f21"@[0] != "alt"@[0]);
    assert("f21"@[1] != "f10"@[1]);
    assert("f21"@[1] != "f11"@[1]);
    assert("f21"@[1] != "f12"@[1]);
    assert("f21"@[1] != "f13"@[1]);
    assert("f21"@[1] != "f14"@[1]);
    assert("f21"@[1] != "f15"@[1]);
    assert("f21"@[1] != "f16"@[1]);
    assert("f21"@[1] != "f17"@[1]);
    assert("f21"@[1] != "f18"@[1]);
    assert("f21"@[1] != "f19"@[1]);
    assert("f21"@[2] != "f20"@[2]);
    assert("f22"@[0] != "tab"@[0]);
    assert("f22"@[0] != "esc"@[0]);
    assert("f22"@[0] != "alt"@[0]);
    assert("f22"@[1] != "f10"@[1]);
    assert("f22"@[1] != "f11"@[1]);
    assert("f22"@[1] != "f12"@[1]);
    assert("f22"@[1] != "f13"@[1]);
    assert("f22"@[1] != "f14"@[1]);
    assert("f22"@[1] != "f15"@[1]);
    assert("f22"@[1] != "f16"@[1]);
    assert("f22"@[1] != "f17"@[1]);
    assert("f22"@[1] != "f18"@[1]);
    assert("f22"@[1] != "f19"@[1]);
    assert("f22"@[2] != "f20"@[2]);
    assert("f22"@[2] != "f21"@[2]);
    assert("f23"@[0] != "tab"@[0]);
    assert("f23"@[0] != "esc"@[0]);
    assert("f23"@[0] != "alt"@[0]);
    assert("f23"@[1] != "f10"@[1]);
    assert("f23"@[1] != "f11"@[1]);
    assert("f23"@[1] != "f12"@[1]);
    assert("f23"@[1] != "f13"@[1]);
    assert("f23"@[1] != "f14"@[1]);
    assert("f23"@[1] != "f15"@[1]);
    assert("f23"@[1] != "f16"@[1]);
    assert("f23"@[1] != "f17"@[1]);
    assert("f23"@[1] != "f18"@[1]);
    assert("f23"@[1] != "f19"@[1]);
    assert("f23"@[2] != "f20"@[2]);
    assert("f23"@[2] != "f21"@[2]);
    assert("f23"@[2] != "f22"@[2]);
    assert("f24"@[0] != "tab"@[0]);
    assert("f24"@[0] != "esc"@[0]);
    assert("f24"@[0] != "alt"@[0]);
    assert("f24"@[1] != "f10"@[1]);
    assert("f24"@[1] != "f11"@[1]);
    assert("f24"@[1] != "f12"@[1]);
    assert("f24"@[1] != "f13"@[1]);
    assert("f24"@[1] != "f14"@[1]);
    assert("f24"@[1] != "f15"@[1]);
    assert("f24"@[1] != "f16"@[1]);
    assert("f24"@[1] != "f17"@[1]);
    assert("f24"@[1] != "f18"@[1]);
    assert("f24"@[1] != "f19"@[1]);
    assert("f24"@[2] != "f20"@[2]);
    assert("f24"@[2] != "f21"@[2]);
    assert("f24"@[2] != "f22"@[2]);
    assert("f24"@[2] != "f23"@[2]);
}

/// Every named key has a name of at least two characters that starts with a
/// lowercase letter.
pub proof fn lemma_named_keys_start_with_a_letter(n: Seq<char>)
    ensures
        named_key(n) is Some ==> n.len() >= 2 && 'a' <= n[0] && n[0] <= 'z',
{
    reveal_strlit("space");
    assert("space"@.len() == 5 && "space"@[0] == 's');
    reveal_strlit("tab");
    assert("tab"@.len() == 3 && "tab"@[0] == 't');
    reveal_strlit("escape");
    assert("escape"@.len() == 6 && "escape"@[0] == 'e');
    reveal_strlit("esc");
    assert("esc"@.len() == 3 && "esc"@[0] == 'e');
    reveal_strlit("shift");
    assert("shift"@.len() == 5 && "shift"@[0] == 's');
    reveal_strlit("ctrl");
    assert("ctrl"@.len() == 4 && "ctrl"@[0] == 'c');
    reveal_strlit("control");
    assert("control"@.len() == 7 && "control"@[0] == 'c');
    reveal_strlit("alt");
    assert("alt"@.len() == 3 && "alt"@[0] == 'a');
    reveal_strlit("f1");
    assert("f1"@.len() == 2 && "f1"@[0] == 'f');
    reveal_strlit("f2");
    assert("f2"@.len() == 2 && "f2"@[0] == 'f');
    reveal_strlit("f3");
    assert("f3"@.len() == 2 && "f3"@[0] == 'f');
    reveal_strlit("f4");
    assert("f4"@.len() == 2 && "f4"@[0] == 'f');
    reveal_strlit("f5");
    assert("f5"@.len() == 2 && "f5"@[0] == 'f');
    reveal_strlit("f6");
    assert("f6"@.len() == 2 && "f6"@[0] == 'f');
    reveal_strlit("f7");
    assert("f7"@.len() == 2 && "f7"@[0] == 'f');
    reveal_strlit("f8");
    assert("f8"@.len() == 2 && "f8"@[0] == 'f');
    reveal_strlit("f9");
    assert("f9"@.len() == 2 && "f9"@[0] == 'f');
    reveal_strlit("f10");
    assert("f10"@.len() == 3 && "f10"@[0] == 'f');
    reveal_strlit("f11");
    assert("f11"@.len() == 3 && "f11"@[0] == 'f');
    reveal_strlit("f12");
    assert("f12"@.len() == 3 && "f12"@[0] == 'f');
    reveal_strlit("f13");
    assert("f13"@.len() == 3 && "f13"@[0] == 'f');
    reveal_strlit("f14");
    assert("f14"@.len() == 3 && "f14"@[0] == 'f');
    reveal_strlit("f15");
    assert("f15"@.len() == 3 && "f15"@[0] == 'f');
    reveal_strlit("f16");
    assert("f16"@.len() == 3 && "f16"@[0] == 'f');
    reveal_strlit("f17");
    assert("f17"@.len() == 3 && "f17"@[0] == 'f');
    reveal_strlit("f18");
    assert("f18"@.len() == 3 && "f18"@[0] == 'f');
    reveal_strlit("f19");
    assert("f19"@.len() == 3 && "f19"@[0] == 'f');
    reveal_strlit("f20");
    assert("f20"@.len() == 3 && "f20"@[0] == 'f');
    reveal_strlit("f21");
    assert("f21"@.len() == 3 && "f21"@[0] == 'f');
    reveal_strlit("f22");
    assert("f22"@.len() == 3 && "f22"@[0] == 'f');
    reveal_strlit("f23");
    assert("f23"@.len() == 3 && "f23"@[0] == 'f');
    reveal_strlit("f24");
    assert("f24"@.len() == 3 && "f24"@[0] == 'f');
    reveal_strlit("lthumbpress");
    assert("lthumbpress"@.len() == 11 && "lthumbpress"@[0] == 'l');
    reveal_strlit("lthumb");
    assert("lthumb"@.len() == 6 && "lthumb"@[0] == 'l');
    reveal_strlit("padlthumb");
    assert("padlthumb"@.len() == 9 && "padlthumb"@[0] == 'p');
    reveal_strlit("l3");
    assert("l3"@.len() == 2 && "l3"@[0] == 'l');
    reveal_strlit("rthumbpress");
    assert("rthumbpress"@.len() == 11 && "rthumbpress"@[0] == 'r');
    reveal_strlit("rthumb");
    assert("rthumb"@.len() == 6 && "rthumb"@[0] == 'r');
    reveal_strlit("padrthumb");
    assert("padrthumb"@.len() == 9 && "padrthumb"@[0] == 'p');
    reveal_strlit("r3");
    assert("r3"@.len() == 2 && "r3"@[0] == 'r');
    reveal_strlit("xa");
    assert("xa"@.len() == 2 && "xa"@[0] == 'x');
    reveal_strlit("pada");
    assert("pada"@.len() == 4 && "pada"@[0] == 'p');
    reveal_strlit("xb");
    assert("xb"@.len() == 2 && "xb"@[0] == 'x');
    reveal_strlit("padb");
    assert("padb"@.len() == 4 && "padb"@[0] == 'p');
    reveal_strlit("xx");
    assert("xx"@.len() == 2 && "xx"@[0] == 'x');
    reveal_strlit("padx");
    assert("padx"@.len() == 4 && "padx"@[0] == 'p');
    reveal_strlit("xy");
    assert("xy"@.len() == 2 && "xy"@[0] == 'x');
    reveal_strlit("pady");
    assert("pady"@.len() == 4 && "pady"@[0] == 'p');
    reveal_strlit("lb");
    assert("lb"@.len() == 2 && "lb"@[0] == 'l');
    reveal_strlit("padlb");
    assert("padlb"@.len() == 5 && "padlb"@[0] == 'p');
    reveal_strlit("rb");
    assert("rb"@.len() == 2 && "rb"@[0] == 'r');
    reveal_strlit("padrb");
    assert("padrb"@.len() == 5 && "padrb"@[0] == 'p');
    reveal_strlit("lt");
    assert("lt"@.len() == 2 && "lt"@[0] == 'l');
    reveal_strlit("padlt");
    assert("padlt"@.len() == 5 && "padlt"@[0] == 'p');
    reveal_strlit("rt");
    assert("rt"@.len() == 2 && "rt"@[0] == 'r');
    reveal_strlit("padrt");
    assert("padrt"@.len() == 5 && "padrt"@[0] == 'p');
    reveal_strlit("start");
    assert("start"@.len() == 5 && "start"@[0] == 's');
    reveal_strlit("padstart");
    assert("padstart"@.len() == 8 && "padstart"@[0] == 'p');
    reveal_strlit("back");
    assert("back"@.len() == 4 && "back"@[0] == 'b');
    reveal_strlit("padback");
    assert("padback"@.len() == 7 && "padback"@[0] == 'p');
    reveal_strlit("dpadup");
    assert("dpadup"@.len() == 6 && "dpadup"@[0] == 'd');
    reveal_strlit("paddpadup");
    assert("paddpadup"@.len() == 9 && "paddpadup"@[0] == 'p');
    reveal_strlit("dpaddown");
    assert("dpaddown"@.len() == 8 && "dpaddown"@[0] == 'd');
    reveal_strlit("paddpaddown");
    assert("paddpaddown"@.len() == 11 && "paddpaddown"@[0] == 'p');
    reveal_strlit("dpadleft");
    assert("dpadleft"@.len() == 8 && "dpadleft"@[0] == 'd');
    reveal_strlit("paddpadleft");
    assert("paddpadleft"@.len() == 11 && "paddpadleft"@[0] == 'p');
    reveal_strlit("dpadright");
    assert("dpadright"@.len() == 9 && "dpadright"@[0] == 'd');
    reveal_strlit("paddpadright");
    assert("paddpadright"@.len() == 12 && "paddpadright"@[0] == 'p');
    reveal_strlit("lsup");
    assert("lsup"@.len() == 4 && "lsup"@[0] == 'l');
    reveal_strlit("padlsup");
    assert("padlsup"@.len() == 7 && "padlsup"@[0] == 'p');
    reveal_strlit("lsdown");
    assert("lsdown"@.len() == 6 && "lsdown"@[0] == 'l');
    reveal_strlit("padlsdown");
    assert("padlsdown"@.len() == 9 && "padlsdown"@[0] == 'p');
    reveal_strlit("lsleft");
    assert("lsleft"@.len() == 6 && "lsleft"@[0] == 'l');
    reveal_strlit("padlsleft");
    assert("padlsleft"@.len() == 9 && "padlsleft"@[0] == 'p');
    reveal_strlit("lsright");
    assert("lsright"@.len() == 7 && "lsright"@[0] == 'l');
    reveal_strlit("padlsright");
    assert("padlsright"@.len() == 10 && "padlsright"@[0] == 'p');
    reveal_strlit("rsup");
    assert("rsup"@.len() == 4 && "rsup"@[0] == 'r');
    reveal_strlit("padrsup");
    assert("padrsup"@.len() == 7 && "padrsup"@[0] == 'p');
    reveal_strlit("rsdown");
    assert("rsdown"@.len() == 6 && "rsdown"@[0] == 'r');
    reveal_strlit("padrsdown");
    assert("padrsdown"@.len() == 9 && "padrsdown"@[0] == 'p');
    reveal_strlit("rsleft");
    assert("rsleft"@.len() == 6 && "rsleft"@[0] == 'r');
    reveal_strlit("padrsleft");
    assert("padrsleft"@.len() == 9 && "padrsleft"@[0] == 'p');
    reveal_strlit("rsright");
    assert("rsright"@.len() == 7 && "rsright"@[0] == 'r');
    reveal_strlit("padrsright");
    assert("padrsright"@.len() == 10 && "padrsright"@[0] == 'p');
}

} // verus!
