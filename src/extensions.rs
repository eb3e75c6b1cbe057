use vstd::prelude::*;
use crate::model::{Extension, Tier};

verus! {

/// Typed-mode methods of the lock holder `SharedTimer`: `readWith` and
/// `writeWith` lend the locked timer to a callback and release the lock
/// through the lock's own scoped use.
pub open spec fn lock_holder_typed() -> Seq<char> {
    "\n    readWith(action: (timer: TimerRef) => void) {\n        this.read().with(function (lock) {\n            action(lock.timer());\n        });\n    }\n    writeWith(action: (timer: TimerRefMut) => void) {\n        this.write().with(function (lock) {\n            action(lock.timer());\n        });\n    }"@
}

/// Documented-mode counterpart of `lock_holder_typed`.
pub open spec fn lock_holder_documented() -> Seq<char> {
    "\n    /**\n     * @param {function(TimerRef)} action\n     */\n    readWith(action) {\n        this.read().with(function (lock) {\n            action(lock.timer());\n        });\n    }\n    /**\n     * @param {function(TimerRefMut)} action\n     */\n    writeWith(action) {\n        this.write().with(function (lock) {\n            action(lock.timer());\n        });\n    }"@
}

/// Typed-mode factories of `Run`, which parses from bytes: from a byte array
/// (a view into a larger buffer is sliced first), from a file read in full,
/// and from a string; each hands the bytes and their length to `Run.parse`.
pub open spec fn byte_parser_typed() -> Seq<char> {
    "\n    static parseArray(data: Int8Array): Run {\n        var buf = Buffer.from(data.buffer);\n        if (data.byteLength !== data.buffer.byteLength) {\n            buf = buf.slice(data.byteOffset, data.byteOffset + data.byteLength);\n        }\n        return Run.parse(buf, buf.byteLength);\n    }\n    static parseFile(file: any) {\n        var data = fs.readFileSync(file);\n        return Run.parse(data, data.byteLength);\n    }\n    static parseString(text: string): Run {\n        let data = new Buffer(text);\n        return Run.parse(data, data.byteLength);\n    }"@
}

/// Documented-mode counterpart of `byte_parser_typed`.
pub open spec fn byte_parser_documented() -> Seq<char> {
    "\n    /**\n     * @param {Int8Array} data\n     * @return {Run}\n     */\n    static parseArray(data) {\n        var buf = Buffer.from(data.buffer);\n        if (data.byteLength !== data.buffer.byteLength) {\n            buf = buf.slice(data.byteOffset, data.byteOffset + data.byteLength);\n        }\n        return Run.parse(buf, buf.byteLength);\n    }\n    /**\n     * @param {string | Buffer | number} file\n     * @return {Run}\n     */\n    static parseFile(file) {\n        var data = fs.readFileSync(file);\n        return Run.parse(data, data.byteLength);\n    }\n    /**\n     * @param {string} text\n     * @return {Run}\n     */\n    static parseString(text) {\n        let data = new Buffer(text);\n        return Run.parse(data, data.byteLength);\n    }"@
}

/// The extension table: the lock-holder methods on `SharedTimerRef` and the
/// parsing factories on `Run`.
pub fn default_extensions() -> (r: Vec<Extension>)
    ensures
        r@.len() == 2,
        r@[0].class_name@ == "SharedTimer"@,
        r@[0].tier == Tier::SharedView,
        r@[0].typed@ == lock_holder_typed(),
        r@[0].documented@ == lock_holder_documented(),
        r@[1].class_name@ == "Run"@,
        r@[1].tier == Tier::Owning,
        r@[1].typed@ == byte_parser_typed(),
        r@[1].documented@ == byte_parser_documented(),
{
    let lock_holder = Extension {
        class_name: String::from_str("SharedTimer"),
        tier: Tier::SharedView,
        typed: String::from_str("\n    readWith(action: (timer: TimerRef) => void) {\n        this.read().with(function (lock) {\n            action(lock.timer());\n        });\n    }\n    writeWith(action: (timer: TimerRefMut) => void) {\n        this.write().with(function (lock) {\n            action(lock.timer());\n        });\n    }"),
        documented: String::from_str("\n    /**\n     * @param {function(TimerRef)} action\n     */\n    readWith(action) {\n        this.read().with(function (lock) {\n            action(lock.timer());\n        });\n    }\n    /**\n     * @param {function(TimerRefMut)} action\n     */\n    writeWith(action) {\n        this.write().with(function (lock) {\n            action(lock.timer());\n        });\n    }"),
    };
    let byte_parser = Extension {
        class_name: String::from_str("Run"),
        tier: Tier::Owning,
        typed: String::from_str("\n    static parseArray(data: Int8Array): Run {\n        var buf = Buffer.from(data.buffer);\n        if (data.byteLength !== data.buffer.byteLength) {\n            buf = buf.slice(data.byteOffset, data.byteOffset + data.byteLength);\n        }\n        return Run.parse(buf, buf.byteLength);\n    }\n    static parseFile(file: any) {\n        var data = fs.readFileSync(file);\n        return Run.parse(data, data.byteLength);\n    }\n    static parseString(text: string): Run {\n        let data = new Buffer(text);\n        return Run.parse(data, data.byteLength);\n    }"),
        documented: String::from_str("\n    /**\n     * @param {Int8Array} data\n     * @return {Run}\n     */\n    static parseArray(data) {\n        var buf = Buffer.from(data.buffer);\n        if (data.byteLength !== data.buffer.byteLength) {\n            buf = buf.slice(data.byteOffset, data.byteOffset + data.byteLength);\n        }\n        return Run.parse(buf, buf.byteLength);\n    }\n    /**\n     * @param {string | Buffer | number} file\n     * @return {Run}\n     */\n    static parseFile(file) {\n        var data = fs.readFileSync(file);\n        return Run.parse(data, data.byteLength);\n    }\n    /**\n     * @param {string} text\n     * @return {Run}\n     */\n    static parseString(text) {\n        let data = new Buffer(text);\n        return Run.parse(data, data.byteLength);\n    }"),
    };
    let mut r: Vec<Extension> = Vec::new();
    r.push(lock_holder);
    r.push(byte_parser);
    r
}

} // verus!
