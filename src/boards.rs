use vstd::prelude::*;

verus! {

/// The error returned when a string names no known board.
#[derive(Debug, PartialEq, Eq, Structural)]
pub struct ParseBoardError;

/// The hardware targets that the code generator can build for.
#[derive(Clone, Copy, Debug, PartialEq, Eq, Structural, Hash)]
pub enum Board {
    SeedCustomJson,
    Pod,
    Patch,
    PatchInit,
    Field,
    Petal,
}

impl Board {
    /// The identifier of the board, as the generator and the upload form spell it.
    pub open spec fn name(self) -> Seq<char> {
        match self {
            Board::SeedCustomJson => "seed"@,
            Board::Pod => "pod"@,
            Board::Patch => "patch"@,
            Board::PatchInit => "patch_init"@,
            Board::Field => "field"@,
            Board::Petal => "petal"@,
        }
    }

    /// Whether some board is spelled `s`.
    pub open spec fn is_board_name(s: Seq<char>) -> bool {
        exists|b: Board| b.name() == s
    }

    pub fn to_str(&self) -> (r: String)
        ensures
            r@ == self.name(),
    {
        match self {
            Board::SeedCustomJson => "seed".to_string(),
            Board::Pod => "pod".to_string(),
            Board::Patch => "patch".to_string(),
            Board::PatchInit => "patch_init".to_string(),
            Board::Field => "field".to_string(),
            Board::Petal => "petal".to_string(),
        }
    }

    /// Reads a board from its identifier.
    pub fn parse(s: &str) -> (r: Result<Board, ParseBoardError>)
        ensures
            r matches Ok(b) ==> b.name() == s@,
            r is Err <==> !Board::is_board_name(s@),
    {
        let text = s.to_string();
        let r = if text == "seed".to_string() {
            Ok(Board::SeedCustomJson)
        } else if text == "pod".to_string() {
            Ok(Board::Pod)
        } else if text == "patch".to_string() {
            Ok(Board::Patch)
        } else if text == "patch_init".to_string() {
            Ok(Board::PatchInit)
        } else if text == "field".to_string() {
            Ok(Board::Field)
        } else if text == "petal".to_string() {
            Ok(Board::Petal)
        } else {
            proof {
                assert forall|b: Board| b.name() != s@ by {
                    match b {
                        Board::SeedCustomJson => {},
                        Board::Pod => {},
                        Board::Patch => {},
                        Board::PatchInit => {},
                        Board::Field => {},
                        Board::Petal => {},
                    }
                }
            }
            Err(ParseBoardError)
        };
        proof {
            if let Ok(b) = r {
                assert(b.name() == s@);
            }
        }
        r
    }
}

/// Boards have distinct names, so reading `b.to_str()` back gives `b`.
pub proof fn lemma_board_name_injective(a: Board, b: Board)
    requires
        a.name() == b.name(),
    ensures
        a == b,
{
    reveal_strlit("seed");
    reveal_strlit("pod");
    reveal_strlit("patch");
    reveal_strlit("patch_init");
    reveal_strlit("field");
    reveal_strlit("petal");
    assert("seed"@.len() == 4 && "pod"@.len() == 3 && "patch"@.len() == 5);
    assert("patch_init"@.len() == 10 && "field"@.len() == 5 && "petal"@.len() == 5);
    assert("patch"@[0] == 'p' && "field"@[0] == 'f' && "petal"@[0] == 'p');
    assert("patch"@[1] == 'a' && "petal"@[1] == 'e');
    assert(a.name().len() == b.name().len());
    assert(a.name()[0] == b.name()[0]);
    assert(a.name()[1] == b.name()[1]);
    match a {
        Board::SeedCustomJson => assert(b is SeedCustomJson),
        Board::Pod => assert(b is Pod),
        Board::Patch => assert(b is Patch),
        Board::PatchInit => assert(b is PatchInit),
        Board::Field => assert(b is Field),
        Board::Petal => assert(b is Petal),
    }
}

impl std::str::FromStr for Board {
    type Err = ParseBoardError;

    fn from_str(s: &str) -> (r: Result<Self, Self::Err>)
        ensures
            r matches Ok(b) ==> b.name() == s@,
            r is Err <==> !Board::is_board_name(s@),
    {
        Board::parse(s)
    }
}

} // verus!
