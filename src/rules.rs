//! Rule entries and the fixed catalog of rules, one list per severity category.

use vstd::prelude::*;

verus! {

/// One rule of the catalog, together with the locations at which it was found
/// in one file. A rule fresh from the catalog has no locations.
#[derive(Clone, Debug, Eq, Hash, PartialEq)]
pub struct RulesDataBase {
    pub id: String,
    pub title: String,
    pub description: String,
    pub location: Vec<String>,
    pub rule: String,
    pub recommendation: String,
}

impl RulesDataBase {
    /// A rule with the given fields and no locations yet.
    pub fn new(id: &str, title: &str, description: &str, rule: &str, recommendation: &str) -> (r:
        RulesDataBase)
        ensures
            r.id@ == id@,
            r.title@ == title@,
            r.description@ == description@,
            r.rule@ == rule@,
            r.recommendation@ == recommendation@,
            r.location@.len() == 0,
    {
        RulesDataBase {
            id: String::from_str(id),
            title: String::from_str(title),
            description: String::from_str(description),
            location: Vec::new(),
            rule: String::from_str(rule),
            recommendation: String::from_str(recommendation),
        }
    }
}

impl Default for RulesDataBase {
    fn default() -> (r: RulesDataBase)
        ensures
            r.id@.len() == 0,
            r.title@.len() == 0,
            r.description@.len() == 0,
            r.rule@.len() == 0,
            r.recommendation@.len() == 0,
            r.location@.len() == 0,
    {
        RulesDataBase {
            id: String::new(),
            title: String::new(),
            description: String::new(),
            location: Vec::new(),
            rule: String::new(),
            recommendation: String::new(),
        }
    }
}

/// The identifiers of a list of rules, in order.
pub open spec fn ids_of(rules: Seq<RulesDataBase>) -> Seq<Seq<char>> {
    rules.map_values(|e: RulesDataBase| e.id@)
}

/// The titles of a list of rules, in order.
pub open spec fn titles_of(rules: Seq<RulesDataBase>) -> Seq<Seq<char>> {
    rules.map_values(|e: RulesDataBase| e.title@)
}

/// The descriptions of a list of rules, in order.
pub open spec fn descriptions_of(rules: Seq<RulesDataBase>) -> Seq<Seq<char>> {
    rules.map_values(|e: RulesDataBase| e.description@)
}

/// The recommendations of a list of rules, in order.
pub open spec fn recommendations_of(rules: Seq<RulesDataBase>) -> Seq<Seq<char>> {
    rules.map_values(|e: RulesDataBase| e.recommendation@)
}

/// The patterns of a list of rules, in order.
pub open spec fn patterns_of(rules: Seq<RulesDataBase>) -> Seq<Seq<char>> {
    rules.map_values(|e: RulesDataBase| e.rule@)
}

/// No rule of the list has a location yet.
pub open spec fn all_unmatched(rules: Seq<RulesDataBase>) -> bool {
    forall|i: int| 0 <= i < rules.len() ==> (#[trigger] rules[i]).location@.len() == 0
}

/// The gas-optimization rules, in catalog order.
pub fn gas_op_issues() -> (r: Vec<RulesDataBase>)
    ensures
        r.len() == 15,
        all_unmatched(r@),
        ids_of(r@) =~= seq![
            "G-08"@,
            "G-08"@,
            "G-16"@,
            "G-14"@,
            "G-15"@,
            "G-17"@,
            "G-02"@,
            "G-03"@,
            "G-04"@,
            "G-05"@,
            "G-06"@,
            "G-09"@,
            "G-10"@,
            "G-13"@,
            "G-19"@,
        ],
        titles_of(r@) =~= seq![
            "Contracts using unlocked pragma."@,
            "Cache Array Length Outside of Loop"@,
            "Use a more recent version of Solidity"@,
            "Functions guaranteed to revert when called by normal users can be marked `payable`"@,
            "`++i/i++` should be `unchecked{++i}/unchecked{i++}` when it is not possible for them to overflow, as is the case when used in `for/while` loops"@,
            "Multiple address mappings can be combined into a single mapping of an address to a struct, where appropriate"@,
            "Use `!= 0` instead of `> 0` for Unsigned Integer Comparison in require statements"@,
            "Reduce the size of error messages (Long revert Strings)."@,
            "Use Custom Errors instead of Revert Strings."@,
            "No need to initialize variables with default values"@,
            "`++i` costs less gas compared to `i++` or `i += 1`"@,
            "Empty blocks should be removed or emit something"@,
            "Use `calldata` instead of `memory` for read-only arguments in `external` functions."@,
            "Use assembly to check for address(0)"@,
            "Using `private` rather than `public` for constants, saves gas"@,
        ],
        descriptions_of(r@) =~= seq![
            "Contracts in scope use `pragma solidity ^0.X.Y` or `pragma solidity >0.X.Y`, allowing wide range of versions."@,
            "Reading array length at each iteration of the loop takes 6 gas (3 for mload and 3 to place memory_offset) in the stack. Caching the array length in the stack saves around 3 gas per iteration."@,
            r"Use a solidity version of at least 0.8.2 to get compiler automatic inlining <br />Use a solidity version of at least 0.8.3 to get better struct packing and cheaper multiple storage reads <br /> Use a solidity version of at least 0.8.4 to get `bytes.concat()` instead of `abi.encodePacked(<bytes>,<bytes>)` and custom errors <br /> Use a solidity version of at least 0.8.12 to get `string.concat()` instead of `abi.encodePacked(<str>,<str>)` <br /> Use a solidity version of at least 0.8.13 to get the ability to use `using for` with a list of free functions"@,
            "If a function modifier such as `onlyOwner` is used, the function will revert if a normal user tries to pay the function. Marking the function as `payable` will lower the gas cost for legitimate callers because the compiler will not include checks for whether a payment was provided."@,
            "This saves 30-60 gas [per loop](https://gist.github.com/hrkrshnn/ee8fabd532058307229d65dcd5836ddc#the-increment-in-for-loop-post-condition-can-be-made-unchecked)"@,
            "Saves a storage slot for the mapping. Depending on the circumstances and sizes of types, can avoid a Gsset (20000 gas) per mapping combined.Reads and subsequent writes can also be cheaper when a function requires both values and they both fit in the same storage slot"@,
            "`!= 0` is cheapear than `> 0` when comparing unsigned integers in require statements."@,
            "Shortening revert strings to fit in 32 bytes will decrease deployment time gas and will decrease runtime gas when the revert condition is met. Revert strings that are longer than 32 bytes require at least one additional mstore, along with additional overhead for computing memory offset, etc."@,
            "Custom errors from Solidity 0.8.4 are cheaper than revert strings (cheaper deployment cost and runtime cost when the revert condition is met)"@,
            "If a variable is not set/initialized, it is assumed to have the default value (0, false, 0x0 etc depending on the data type). Explicitly initializing it with its default value is an anti-pattern and wastes gas."@,
            "`++i` costs less gas compared to `i++` or `i += 1` for unsigned integer, as pre-increment is cheaper (about 5 gas per iteration). This statement is true even with the optimizer enabled."@,
            "Empty blocks should be removed or emit something. Waste of gas."@,
            "When a function with a `memory` array is called externally, the `abi.decode()` step has to use a for-loop to copy each index of the `calldata` to the `memory` index. Each iteration of this for-loop costs at least 60 gas (i.e. 60 * <mem_array>.length). Using calldata directly, obliviates the need for such a loop in the contract code and runtime execution."@,
            "Saves 6 gas per instance if using assembly to check for zero address"@,
            "If needed, the value can be read from the verified contract source code. Savings are due to the compiler not having to create non-payable getter functions for deployment calldata, and not adding another entry to the method ID table"@,
        ],
        patterns_of(r@) =~= seq![
            "pragma solidity  (\\^|>)"@,
            "(for.*\\.length)"@,
            "(pragma solidity \\^0.[8-9].[0-10]|pragma solidity >0.[8-9].[0-10]|pragma solidity 0.[8-9].[4-9]|pragma solidity \\^0.[4-7].[0-9]|pragma solidity >0.[4-7].[0-9]|pragma solidity 0.[4-7].[0-9])"@,
            "(?i:.*external.*only.\\w*|.*only.\\w*.*external|.*public.*only.\\w*|.*only.\\w*.*public)"@,
            "(i\\++|i \\+= 1|i\\--|[a-z,A-Z]*\\++\\)|[a-z,A-Z]*\\++[[:blank:]]\\)|[a-z,A-Z]*\\--|i \\-= 1)"@,
            "(mapping\\(address.*|mapping \\(address.*)((.|\\n)*)(mapping\\(address.*|mapping \\(address.*)"@,
            "(require.*>0|require.*> 0)"@,
            "(require|revert)\\(.*,?.(\"|\').{33,}(\"|\')\\)"@,
            "(require|revert)\\(.*,?\".*\"\\)"@,
            "(uint[0-9]*[[:blank:]][a-z,A-Z,0-9]*.?=.?0;)|(bool.[a-z,A-Z,0-9]*.?=.?false;)|(int[0-9]*[[:blank:]][a-z,A-Z,0-9]*.?=.?0;)"@,
            "(i\\++|i \\+= 1|i\\--|[a-z,A-Z]*\\++\\)|[a-z,A-Z]*\\++[[:blank:]]\\)|[a-z,A-Z]*\\--|i \\-= 1)"@,
            "(function.*\\{\\s*\\})"@,
            "function.?\\([^)]*\\[\\] memory [^)]*\\)[^{]*(external|view)[^{]*(external|view)"@,
            "!=address\\(0\\)|!= address\\(0\\)"@,
            "(public.?constant.?|constant.?public.?)[^=\\n\\(]*(=|;)"@,
        ],
        recommendations_of(r@) =~= seq![
            "Consider locking compiler version, for example `pragma solidity 0.8.6`. This can have additional benefits, for example using custom errors to save gas and so forth."@,
            "Store the array’s length in a variable before the for-loop."@,
            "Use `x = x + y` instead of `x += y`"@,
            "Consider marking above functions as payable"@,
            "Consider doing incrementation/decrementation `unchecked{}`"@,
            "Consider combining mappings where appropriate"@,
            "Use `!= 0` instead of `> 0`."@,
            "Shorten the revert strings to fit in 32 bytes, or use custom errors if >0.8.4."@,
            "Use custom errors instead of revert strings."@,
            "Remove explicit default initializations."@,
            "Use `++i` instead of `i++` to increment the value of an `uint` variable. Same thing for `--i` and `i--`."@,
            "The code should be refactored such that they no longer exist, or the block should do something useful, such as emitting an event or reverting."@,
            "Use `calldata` instead of `memory`."@,
            "Consider using assembly to check for zero address checks"@,
            "Consider changing above findings to `private`"@,
        ],
        r[0].id@ == r[1].id@,
        r[0].title@ != r[1].title@,
{
    proof {
        reveal_strlit("G-08");
        reveal_strlit("Contracts using unlocked pragma.");
        reveal_strlit("Cache Array Length Outside of Loop");
    }
    let r = vec![
        RulesDataBase::new(
            "G-08",
            "Contracts using unlocked pragma.",
            "Contracts in scope use `pragma solidity ^0.X.Y` or `pragma solidity >0.X.Y`, allowing wide range of versions.",
            "pragma solidity  (\\^|>)",
            "Consider locking compiler version, for example `pragma solidity 0.8.6`. This can have additional benefits, for example using custom errors to save gas and so forth.",
        ),
        RulesDataBase::new(
            "G-08",
            "Cache Array Length Outside of Loop",
            "Reading array length at each iteration of the loop takes 6 gas (3 for mload and 3 to place memory_offset) in the stack. Caching the array length in the stack saves around 3 gas per iteration.",
            "(for.*\\.length)",
            "Store the array’s length in a variable before the for-loop.",
        ),
        RulesDataBase::new(
            "G-16",
            "Use a more recent version of Solidity",
            r"Use a solidity version of at least 0.8.2 to get compiler automatic inlining <br />Use a solidity version of at least 0.8.3 to get better struct packing and cheaper multiple storage reads <br /> Use a solidity version of at least 0.8.4 to get `bytes.concat()` instead of `abi.encodePacked(<bytes>,<bytes>)` and custom errors <br /> Use a solidity version of at least 0.8.12 to get `string.concat()` instead of `abi.encodePacked(<str>,<str>)` <br /> Use a solidity version of at least 0.8.13 to get the ability to use `using for` with a list of free functions",
            "(pragma solidity \\^0.[8-9].[0-10]|pragma solidity >0.[8-9].[0-10]|pragma solidity 0.[8-9].[4-9]|pragma solidity \\^0.[4-7].[0-9]|pragma solidity >0.[4-7].[0-9]|pragma solidity 0.[4-7].[0-9])",
            "Use `x = x + y` instead of `x += y`",
        ),
        RulesDataBase::new(
            "G-14",
            "Functions guaranteed to revert when called by normal users can be marked `payable`",
            "If a function modifier such as `onlyOwner` is used, the function will revert if a normal user tries to pay the function. Marking the function as `payable` will lower the gas cost for legitimate callers because the compiler will not include checks for whether a payment was provided.",
            "(?i:.*external.*only.\\w*|.*only.\\w*.*external|.*public.*only.\\w*|.*only.\\w*.*public)",
            "Consider marking above functions as payable",
        ),
        RulesDataBase::new(
            "G-15",
            "`++i/i++` should be `unchecked{++i}/unchecked{i++}` when it is not possible for them to overflow, as is the case when used in `for/while` loops",
            "This saves 30-60 gas [per loop](https://gist.github.com/hrkrshnn/ee8fabd532058307229d65dcd5836ddc#the-increment-in-for-loop-post-condition-can-be-made-unchecked)",
            "(i\\++|i \\+= 1|i\\--|[a-z,A-Z]*\\++\\)|[a-z,A-Z]*\\++[[:blank:]]\\)|[a-z,A-Z]*\\--|i \\-= 1)",
            "Consider doing incrementation/decrementation `unchecked{}`",
        ),
        RulesDataBase::new(
            "G-17",
            "Multiple address mappings can be combined into a single mapping of an address to a struct, where appropriate",
            "Saves a storage slot for the mapping. Depending on the circumstances and sizes of types, can avoid a Gsset (20000 gas) per mapping combined.Reads and subsequent writes can also be cheaper when a function requires both values and they both fit in the same storage slot",
            "(mapping\\(address.*|mapping \\(address.*)((.|\\n)*)(mapping\\(address.*|mapping \\(address.*)",
            "Consider combining mappings where appropriate",
        ),
        RulesDataBase::new(
            "G-02",
            "Use `!= 0` instead of `> 0` for Unsigned Integer Comparison in require statements",
            "`!= 0` is cheapear than `> 0` when comparing unsigned integers in require statements.",
            "(require.*>0|require.*> 0)",
            "Use `!= 0` instead of `> 0`.",
        ),
        RulesDataBase::new(
            "G-03",
            "Reduce the size of error messages (Long revert Strings).",
            "Shortening revert strings to fit in 32 bytes will decrease deployment time gas and will decrease runtime gas when the revert condition is met. Revert strings that are longer than 32 bytes require at least one additional mstore, along with additional overhead for computing memory offset, etc.",
            "(require|revert)\\(.*,?.(\"|\').{33,}(\"|\')\\)",
            "Shorten the revert strings to fit in 32 bytes, or use custom errors if >0.8.4.",
        ),
        RulesDataBase::new(
            "G-04",
            "Use Custom Errors instead of Revert Strings.",
            "Custom errors from Solidity 0.8.4 are cheaper than revert strings (cheaper deployment cost and runtime cost when the revert condition is met)",
            "(require|revert)\\(.*,?\".*\"\\)",
            "Use custom errors instead of revert strings.",
        ),
        RulesDataBase::new(
            "G-05",
            "No need to initialize variables with default values",
            "If a variable is not set/initialized, it is assumed to have the default value (0, false, 0x0 etc depending on the data type). Explicitly initializing it with its default value is an anti-pattern and wastes gas.",
            "(uint[0-9]*[[:blank:]][a-z,A-Z,0-9]*.?=.?0;)|(bool.[a-z,A-Z,0-9]*.?=.?false;)|(int[0-9]*[[:blank:]][a-z,A-Z,0-9]*.?=.?0;)",
            "Remove explicit default initializations.",
        ),
        RulesDataBase::new(
            "G-06",
            "`++i` costs less gas compared to `i++` or `i += 1`",
            "`++i` costs less gas compared to `i++` or `i += 1` for unsigned integer, as pre-increment is cheaper (about 5 gas per iteration). This statement is true even with the optimizer enabled.",
            "(i\\++|i \\+= 1|i\\--|[a-z,A-Z]*\\++\\)|[a-z,A-Z]*\\++[[:blank:]]\\)|[a-z,A-Z]*\\--|i \\-= 1)",
            "Use `++i` instead of `i++` to increment the value of an `uint` variable. Same thing for `--i` and `i--`.",
        ),
        RulesDataBase::new(
            "G-09",
            "Empty blocks should be removed or emit something",
            "Empty blocks should be removed or emit something. Waste of gas.",
            "(function.*\\{\\s*\\})",
            "The code should be refactored such that they no longer exist, or the block should do something useful, such as emitting an event or reverting.",
        ),
        RulesDataBase::new(
            "G-10",
            "Use `calldata` instead of `memory` for read-only arguments in `external` functions.",
            "When a function with a `memory` array is called externally, the `abi.decode()` step has to use a for-loop to copy each index of the `calldata` to the `memory` index. Each iteration of this for-loop costs at least 60 gas (i.e. 60 * <mem_array>.length). Using calldata directly, obliviates the need for such a loop in the contract code and runtime execution.",
            "function.?\\([^)]*\\[\\] memory [^)]*\\)[^{]*(external|view)[^{]*(external|view)",
            "Use `calldata` instead of `memory`.",
        ),
        RulesDataBase::new(
            "G-13",
            "Use assembly to check for address(0)",
            "Saves 6 gas per instance if using assembly to check for zero address",
            "!=address\\(0\\)|!= address\\(0\\)",
            "Consider using assembly to check for zero address checks",
        ),
        RulesDataBase::new(
            "G-19",
            "Using `private` rather than `public` for constants, saves gas",
            "If needed, the value can be read from the verified contract source code. Savings are due to the compiler not having to create non-payable getter functions for deployment calldata, and not adding another entry to the method ID table",
            "(public.?constant.?|constant.?public.?)[^=\\n\\(]*(=|;)",
            "Consider changing above findings to `private`",
        ),
    ];
    proof {
        assert(r[0].title@[1] != r[1].title@[1]);
    }
    r
}

/// The low-severity rules, in catalog order.
pub fn low_issues() -> (r: Vec<RulesDataBase>)
    ensures
        r.len() == 8,
        all_unmatched(r@),
        ids_of(r@) =~= seq![
            "L-01"@,
            "L-02"@,
            "L-03"@,
            "L-04"@,
            "L-05"@,
            "L-06"@,
            "L-07"@,
            "L-08"@,
        ],
        titles_of(r@) =~= seq![
            "Unsafe ERC20 Operation(s)"@,
            "Unspecific Compiler Version Pragma"@,
            "Do not use Deprecated Library Functions"@,
            "Open TODOs"@,
            "`ecrecover()` not checked for signer address of zero"@,
            "`_safeMint()` should be used rather than `_mint()` wherever possible."@,
            "Expressions for constant values such as a call to `keccak256()`, should use `immutable` rather than `constant`."@,
            "`abi.encodePacked()` should not be used with dynamic types when passing the result to a hash function such as `keccak256()`"@,
        ],
        descriptions_of(r@) =~= seq![
            "The return value of an external `transfer`/`transferFrom`/`approve` call is not checked"@,
            "A known vulnerable compiler version may accidentally be selected or security tools might fall-back to an older compiler version ending up checking a different EVM compilation that is ultimately deployed on the blockchain."@,
            "The usage of deprecated library functions should be discouraged."@,
            "There are many open TODOs throughout the various code files."@,
            "The `ecrecover()` function returns an address of zero when the signature does not match. This can cause problems if address zero is ever the owner of assets, and someone uses the permit function on address zero. If that happens, any invalid signature will pass the checks, and the assets will be stealable. "@,
            "`_mint()` is [discouraged](https://github.com/OpenZeppelin/openzeppelin-contracts/blob/d4d8d2ed9798cc3383912a23b5e8d5cb602f7d4b/contracts/token/ERC721/ERC721.sol#L271) in favor of `_safeMint()` which ensures that the recipient is either an EOA or implements `IERC721Receiver`."@,
            ""@,
            "Use `abi.encode()` instead which will pad items to 32 bytes, which will [prevent hash collisions](https://docs.soliditylang.org/en/v0.8.13/abi-spec.html#non-standard-packed-mode) (e.g. `abi.encodePacked(0x123,0x456)` => `0x123456` => `abi.encodePacked(0x1,0x23456)`, but `abi.encode(0x123,0x456)` => `0x0...1230...456`). \"Unless there is a compelling reason, `abi.encode` should be preferred\". If there is only one argument to `abi.encodePacked()` it can often be cast to `bytes()` or `bytes32()` [instead](https://ethereum.stackexchange.com/questions/30912/how-to-compare-strings-in-solidity#answer-82739<br />If all arguments are strings and or bytes, `bytes.concat()` should be used instead"@,
        ],
        patterns_of(r@) =~= seq![
            "\\.transfer\\(|\\.transferFrom\\(|\\.approve\\("@,
            "pragma solidity (\\^|>)"@,
            "_setupRole\\(|safeApprove\\(|latestAnswer"@,
            "TODO"@,
            "(address*[[:blank:]][a-z,A-Z,0-9]*.?=.?ecrecover.*;)"@,
            r"_mint\(.*\)"@,
            ".*constant.*=.*keccak256\\(.*\\)"@,
            "keccak(256)?.?\\(abi.encodePacked"@,
        ],
        recommendations_of(r@) =~= seq![
            "Use `SafeERC20`, or ensure that the `transfer`/`transferFrom` return value is checked."@,
            "Avoid floating pragmas for non-library contracts. It is recommended to pin to a concrete compiler version."@,
            "Use `safeIncreaseAllowance` / `safeDecreaseAllowance` instead of `safeApprove`."@,
            "Remove TODO's before deployment"@,
            "Add a check to ensure `ecrecover()` does not return an address of zero."@,
            "Use either [OpenZeppelin's](https://github.com/OpenZeppelin/openzeppelin-contracts/blob/d4d8d2ed9798cc3383912a23b5e8d5cb602f7d4b/contracts/token/ERC721/ERC721.sol#L238-L250) or [solmate's](https://github.com/transmissions11/solmate/blob/4eaf6b68202e36f67cab379768ac6be304c8ebde/src/tokens/ERC721.sol#L180) version of this function."@,
            ""@,
            ""@,
        ],
{
    vec![
        RulesDataBase::new(
            "L-01",
            "Unsafe ERC20 Operation(s)",
            "The return value of an external `transfer`/`transferFrom`/`approve` call is not checked",
            "\\.transfer\\(|\\.transferFrom\\(|\\.approve\\(",
            "Use `SafeERC20`, or ensure that the `transfer`/`transferFrom` return value is checked.",
        ),
        RulesDataBase::new(
            "L-02",
            "Unspecific Compiler Version Pragma",
            "A known vulnerable compiler version may accidentally be selected or security tools might fall-back to an older compiler version ending up checking a different EVM compilation that is ultimately deployed on the blockchain.",
            "pragma solidity (\\^|>)",
            "Avoid floating pragmas for non-library contracts. It is recommended to pin to a concrete compiler version.",
        ),
        RulesDataBase::new(
            "L-03",
            "Do not use Deprecated Library Functions",
            "The usage of deprecated library functions should be discouraged.",
            "_setupRole\\(|safeApprove\\(|latestAnswer",
            "Use `safeIncreaseAllowance` / `safeDecreaseAllowance` instead of `safeApprove`.",
        ),
        RulesDataBase::new(
            "L-04",
            "Open TODOs",
            "There are many open TODOs throughout the various code files.",
            "TODO",
            "Remove TODO's before deployment",
        ),
        RulesDataBase::new(
            "L-05",
            "`ecrecover()` not checked for signer address of zero",
            "The `ecrecover()` function returns an address of zero when the signature does not match. This can cause problems if address zero is ever the owner of assets, and someone uses the permit function on address zero. If that happens, any invalid signature will pass the checks, and the assets will be stealable. ",
            "(address*[[:blank:]][a-z,A-Z,0-9]*.?=.?ecrecover.*;)",
            "Add a check to ensure `ecrecover()` does not return an address of zero.",
        ),
        RulesDataBase::new(
            "L-06",
            "`_safeMint()` should be used rather than `_mint()` wherever possible.",
            "`_mint()` is [discouraged](https://github.com/OpenZeppelin/openzeppelin-contracts/blob/d4d8d2ed9798cc3383912a23b5e8d5cb602f7d4b/contracts/token/ERC721/ERC721.sol#L271) in favor of `_safeMint()` which ensures that the recipient is either an EOA or implements `IERC721Receiver`.",
            r"_mint\(.*\)",
            "Use either [OpenZeppelin's](https://github.com/OpenZeppelin/openzeppelin-contracts/blob/d4d8d2ed9798cc3383912a23b5e8d5cb602f7d4b/contracts/token/ERC721/ERC721.sol#L238-L250) or [solmate's](https://github.com/transmissions11/solmate/blob/4eaf6b68202e36f67cab379768ac6be304c8ebde/src/tokens/ERC721.sol#L180) version of this function.",
        ),
        RulesDataBase::new(
            "L-07",
            "Expressions for constant values such as a call to `keccak256()`, should use `immutable` rather than `constant`.",
            "",
            ".*constant.*=.*keccak256\\(.*\\)",
            "",
        ),
        RulesDataBase::new(
            "L-08",
            "`abi.encodePacked()` should not be used with dynamic types when passing the result to a hash function such as `keccak256()`",
            "Use `abi.encode()` instead which will pad items to 32 bytes, which will [prevent hash collisions](https://docs.soliditylang.org/en/v0.8.13/abi-spec.html#non-standard-packed-mode) (e.g. `abi.encodePacked(0x123,0x456)` => `0x123456` => `abi.encodePacked(0x1,0x23456)`, but `abi.encode(0x123,0x456)` => `0x0...1230...456`). \"Unless there is a compelling reason, `abi.encode` should be preferred\". If there is only one argument to `abi.encodePacked()` it can often be cast to `bytes()` or `bytes32()` [instead](https://ethereum.stackexchange.com/questions/30912/how-to-compare-strings-in-solidity#answer-82739<br />If all arguments are strings and or bytes, `bytes.concat()` should be used instead",
            "keccak(256)?.?\\(abi.encodePacked",
            "",
        ),
    ]
}

/// The non-critical rules, in catalog order.
pub fn non_critical_issues() -> (r: Vec<RulesDataBase>)
    ensures
        r.len() == 5,
        all_unmatched(r@),
        ids_of(r@) =~= seq![
            "N-01"@,
            "N-02"@,
            "N-03"@,
            "N-05"@,
            "N-06"@,
        ],
        titles_of(r@) =~= seq![
            "Use of `ecrecover()` is susceptible to signature malleability"@,
            "Declare `uint` as `uint256`"@,
            "Large multiples of ten should use scientific notation (e.g. `1e6`) rather than decimal literals (e.g. `1000000`), for readability"@,
            "The `nonReentrant` `modifier` should occur before all other modifiers"@,
            "Return values of `approve()` not checked"@,
        ],
        descriptions_of(r@) =~= seq![
            ""@,
            ""@,
            ""@,
            "This is a best-practice to protect against reentrancy in other modifiers"@,
            "Not all IERC20 implementations `revert()` when there's a failure in `approve()`. The function signature has a boolean return value and they indicate errors that way instead. By not checking the return value, operations that should have marked as failed, may potentially go through without actually approving anything"@,
        ],
        patterns_of(r@) =~= seq![
            "ecrecover"@,
            " uint | int "@,
            ".*10{6,}"@,
            "function.?\\([a-zA-Z]*\\)[^\\}]*[[:space:]]((?!(external[[:space:]]|override[[:space:]]|view[[:space:]]|pure[[:space:]]|internal[[:space:]]|private[[:space:]]))[a-zA-Z]+[[:space:]])+[^\\}]*nonReentrant"@,
            "\\n((?![^=\\n]*function)[^=\\n]*)approve.?\\("@,
        ],
        recommendations_of(r@) =~= seq![
            "Use OpenZeppelin's `ECDSA` contract rather than calling `ecrecover()` directly."@,
            "To favor explicitness, all instances of `uint`/`int` should be declared as `uint256`/`int256`."@,
            ""@,
            ""@,
            ""@,
        ],
{
    vec![
        RulesDataBase::new(
            "N-01",
            "Use of `ecrecover()` is susceptible to signature malleability",
            "",
            "ecrecover",
            "Use OpenZeppelin's `ECDSA` contract rather than calling `ecrecover()` directly.",
        ),
        RulesDataBase::new(
            "N-02",
            "Declare `uint` as `uint256`",
            "",
            " uint | int ",
            "To favor explicitness, all instances of `uint`/`int` should be declared as `uint256`/`int256`.",
        ),
        RulesDataBase::new(
            "N-03",
            "Large multiples of ten should use scientific notation (e.g. `1e6`) rather than decimal literals (e.g. `1000000`), for readability",
            "",
            ".*10{6,}",
            "",
        ),
        RulesDataBase::new(
            "N-05",
            "The `nonReentrant` `modifier` should occur before all other modifiers",
            "This is a best-practice to protect against reentrancy in other modifiers",
            "function.?\\([a-zA-Z]*\\)[^\\}]*[[:space:]]((?!(external[[:space:]]|override[[:space:]]|view[[:space:]]|pure[[:space:]]|internal[[:space:]]|private[[:space:]]))[a-zA-Z]+[[:space:]])+[^\\}]*nonReentrant",
            "",
        ),
        RulesDataBase::new(
            "N-06",
            "Return values of `approve()` not checked",
            "Not all IERC20 implementations `revert()` when there's a failure in `approve()`. The function signature has a boolean return value and they indicate errors that way instead. By not checking the return value, operations that should have marked as failed, may potentially go through without actually approving anything",
            "\\n((?![^=\\n]*function)[^=\\n]*)approve.?\\(",
            "",
        ),
    ]
}
} // verus!
