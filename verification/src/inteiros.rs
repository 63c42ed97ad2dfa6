//! Aritmética entre números inteiros da kaju (i64): o que cada operador
//! produz e quando falha. Entre inteiros, `+ - *` são exatos ou falham com
//! estouro (`K222`), `/` sempre dá um decimal, `%` dá o resto com o sinal do
//! dividendo, e divisão ou resto por zero falham (`K020`).

use vstd::prelude::*;
use crate::ast::{OpBinaria, OpUnaria};
use crate::explicacoes::eh_codigo_conhecido;

verus! {

/// O que uma operação entre inteiros produz.
#[derive(Clone, Copy, Debug, PartialEq, Eq, Structural)]
pub enum ResultadoInteiro {
    Inteiro(i64),
    Logico(bool),
    /// O quociente exato `dividendo / divisor` (com divisor diferente de zero),
    /// que a linguagem representa como decimal.
    Quociente(i64, i64),
}

/// Por que uma operação entre inteiros falha.
#[derive(Clone, Copy, Debug, PartialEq, Eq, Structural)]
pub enum FalhaInteira {
    /// O resultado sai do alcance de i64 (`K222`).
    Estouro,
    /// Divisão ou resto por zero (`K020`).
    DivisaoPorZero,
    /// Deslocamento de bits fora de 0..=63 (`K012`).
    DeslocamentoInvalido,
}

impl FalhaInteira {
    /// O código de diagnóstico com que o interpretador relata a falha.
    pub open spec fn codigo_spec(self) -> Seq<char> {
        match self {
            FalhaInteira::Estouro => "K222"@,
            FalhaInteira::DivisaoPorZero => "K020"@,
            FalhaInteira::DeslocamentoInvalido => "K012"@,
        }
    }

    /// O código da falha; todo código tem explicação em `kaju explique`.
    pub fn codigo(&self) -> (c: &'static str)
        ensures
            c@ == self.codigo_spec(),
            eh_codigo_conhecido(c@),
    {
        match self {
            FalhaInteira::Estouro => {
                proof {
                    reveal_strlit("K222");
                }
                "K222"
            },
            FalhaInteira::DivisaoPorZero => {
                proof {
                    reveal_strlit("K020");
                }
                "K020"
            },
            FalhaInteira::DeslocamentoInvalido => {
                proof {
                    reveal_strlit("K012");
                }
                "K012"
            },
        }
    }
}

/// Um valor matemático que cabe em i64.
pub open spec fn cabe(v: int) -> bool {
    i64::MIN <= v <= i64::MAX
}

/// Um resultado exato, ou estouro se não cabe em i64.
pub open spec fn exato(v: int) -> Result<ResultadoInteiro, FalhaInteira> {
    if cabe(v) {
        Ok(ResultadoInteiro::Inteiro(v as i64))
    } else {
        Err(FalhaInteira::Estouro)
    }
}

/// O resto da divisão truncada (o de Rust e da kaju): o sinal é o do dividendo
/// e o valor absoluto é o resto dos valores absolutos.
pub open spec fn resto_truncado(x: int, y: int) -> int {
    let ay = if y < 0 { -y } else { y };
    if x >= 0 {
        x % ay
    } else {
        -((-x) % ay)
    }
}

/// O que a operação binária `op` dá entre os inteiros `x` e `y`.
pub open spec fn operacao_inteira(op: OpBinaria, x: i64, y: i64) -> Result<ResultadoInteiro, FalhaInteira> {
    match op {
        OpBinaria::Soma => exato(x + y),
        OpBinaria::Subtracao => exato(x - y),
        OpBinaria::Multiplicacao => exato(x * y),
        OpBinaria::Divisao => if y == 0 {
            Err(FalhaInteira::DivisaoPorZero)
        } else {
            Ok(ResultadoInteiro::Quociente(x, y))
        },
        OpBinaria::Resto => if y == 0 {
            Err(FalhaInteira::DivisaoPorZero)
        } else {
            Ok(ResultadoInteiro::Inteiro(resto_truncado(x as int, y as int) as i64))
        },
        OpBinaria::Igual => Ok(ResultadoInteiro::Logico(x == y)),
        OpBinaria::Diferente => Ok(ResultadoInteiro::Logico(x != y)),
        OpBinaria::Menor => Ok(ResultadoInteiro::Logico(x < y)),
        OpBinaria::Maior => Ok(ResultadoInteiro::Logico(x > y)),
        OpBinaria::MenorIgual => Ok(ResultadoInteiro::Logico(x <= y)),
        OpBinaria::MaiorIgual => Ok(ResultadoInteiro::Logico(x >= y)),
        OpBinaria::EBit => Ok(ResultadoInteiro::Inteiro(x & y)),
        OpBinaria::OuBit => Ok(ResultadoInteiro::Inteiro(x | y)),
        OpBinaria::XorBit => Ok(ResultadoInteiro::Inteiro(x ^ y)),
        OpBinaria::DeslocaEsq => if 0 <= y < 64 {
            Ok(ResultadoInteiro::Inteiro(x << (y as u32)))
        } else {
            Err(FalhaInteira::DeslocamentoInvalido)
        },
        OpBinaria::DeslocaDir => if 0 <= y < 64 {
            Ok(ResultadoInteiro::Inteiro(x >> (y as u32)))
        } else {
            Err(FalhaInteira::DeslocamentoInvalido)
        },
    }
}

/// Aplica o operador binário `op` a dois inteiros.
pub fn operar_inteiros(op: OpBinaria, x: i64, y: i64) -> (r: Result<ResultadoInteiro, FalhaInteira>)
    ensures
        r == operacao_inteira(op, x, y),
        op is Igual ==> r == Ok::<ResultadoInteiro, FalhaInteira>(ResultadoInteiro::Logico(x == y)),
        op is Diferente ==> r == Ok::<ResultadoInteiro, FalhaInteira>(ResultadoInteiro::Logico(x != y)),
        op is Menor ==> r == Ok::<ResultadoInteiro, FalhaInteira>(ResultadoInteiro::Logico(x < y)),
        op is Maior ==> r == Ok::<ResultadoInteiro, FalhaInteira>(ResultadoInteiro::Logico(x > y)),
        op is MenorIgual ==> r == Ok::<ResultadoInteiro, FalhaInteira>(ResultadoInteiro::Logico(x <= y)),
        op is MaiorIgual ==> r == Ok::<ResultadoInteiro, FalhaInteira>(ResultadoInteiro::Logico(x >= y)),
        op is Soma ==> (r matches Ok(ResultadoInteiro::Inteiro(v)) && v == x + y) || (r == Err::<
            ResultadoInteiro,
            FalhaInteira,
        >(FalhaInteira::Estouro) && !(i64::MIN <= x + y <= i64::MAX)),
        op is Subtracao ==> (r matches Ok(ResultadoInteiro::Inteiro(v)) && v == x - y) || (r == Err::<
            ResultadoInteiro,
            FalhaInteira,
        >(FalhaInteira::Estouro) && !(i64::MIN <= x - y <= i64::MAX)),
        op is Multiplicacao ==> (r matches Ok(ResultadoInteiro::Inteiro(v)) && v == x * y) || (r == Err::<
            ResultadoInteiro,
            FalhaInteira,
        >(FalhaInteira::Estouro) && !(i64::MIN <= x * y <= i64::MAX)),
        (op is Divisao || op is Resto) ==> (y == 0 <==> r == Err::<ResultadoInteiro, FalhaInteira>(
            FalhaInteira::DivisaoPorZero,
        )),
        op is Resto && y != 0 ==> (r matches Ok(ResultadoInteiro::Inteiro(v)) && (v == 0 || (v < 0) == (x < 0)) && (
        if v < 0 { -v } else { v as int }) < (if y < 0 { -y } else { y as int })),
{
    match op {
        OpBinaria::Soma => match x.checked_add(y) {
            Some(v) => Ok(ResultadoInteiro::Inteiro(v)),
            None => Err(FalhaInteira::Estouro),
        },
        OpBinaria::Subtracao => match x.checked_sub(y) {
            Some(v) => Ok(ResultadoInteiro::Inteiro(v)),
            None => Err(FalhaInteira::Estouro),
        },
        OpBinaria::Multiplicacao => match x.checked_mul(y) {
            Some(v) => Ok(ResultadoInteiro::Inteiro(v)),
            None => Err(FalhaInteira::Estouro),
        },
        OpBinaria::Divisao => if y == 0 {
            Err(FalhaInteira::DivisaoPorZero)
        } else {
            Ok(ResultadoInteiro::Quociente(x, y))
        },
        OpBinaria::Resto => if y == 0 {
            Err(FalhaInteira::DivisaoPorZero)
        } else if y == -1 {
            assert(resto_truncado(x as int, -1) == 0) by {
                assert((x as int) % 1 == 0);
                assert((-(x as int)) % 1 == 0);
            }
            Ok(ResultadoInteiro::Inteiro(0))
        } else {
            assert(resto_truncado(0, y as int) == 0) by {
                assert(0int % (if y < 0 { -y } else { y as int }) == 0);
            }
            match x.checked_rem(y) {
                Some(v) => Ok(ResultadoInteiro::Inteiro(v)),
                None => Ok(ResultadoInteiro::Inteiro(0)),
            }
        },
        OpBinaria::Igual => Ok(ResultadoInteiro::Logico(x == y)),
        OpBinaria::Diferente => Ok(ResultadoInteiro::Logico(x != y)),
        OpBinaria::Menor => Ok(ResultadoInteiro::Logico(x < y)),
        OpBinaria::Maior => Ok(ResultadoInteiro::Logico(x > y)),
        OpBinaria::MenorIgual => Ok(ResultadoInteiro::Logico(x <= y)),
        OpBinaria::MaiorIgual => Ok(ResultadoInteiro::Logico(x >= y)),
        OpBinaria::EBit => Ok(ResultadoInteiro::Inteiro(x & y)),
        OpBinaria::OuBit => Ok(ResultadoInteiro::Inteiro(x | y)),
        OpBinaria::XorBit => Ok(ResultadoInteiro::Inteiro(x ^ y)),
        OpBinaria::DeslocaEsq => if 0 <= y && y < 64 {
            let d: u32 = y as u32;
            Ok(ResultadoInteiro::Inteiro(x << d))
        } else {
            Err(FalhaInteira::DeslocamentoInvalido)
        },
        OpBinaria::DeslocaDir => if 0 <= y && y < 64 {
            let d: u32 = y as u32;
            Ok(ResultadoInteiro::Inteiro(x >> d))
        } else {
            Err(FalhaInteira::DeslocamentoInvalido)
        },
    }
}

/// O que o operador unário `op` dá sobre o inteiro `x`. Todo número é
/// verdadeiro numa condição, então `nao x` é sempre falso.
pub open spec fn operacao_unaria_inteira(op: OpUnaria, x: i64) -> Result<ResultadoInteiro, FalhaInteira> {
    match op {
        OpUnaria::Negacao => Ok(ResultadoInteiro::Logico(false)),
        OpUnaria::Negativo => exato(-x),
        OpUnaria::NaoBit => Ok(ResultadoInteiro::Inteiro(!x)),
    }
}

/// Aplica o operador unário `op` a um inteiro.
pub fn operar_inteiro(op: OpUnaria, x: i64) -> (r: Result<ResultadoInteiro, FalhaInteira>)
    ensures
        r == operacao_unaria_inteira(op, x),
{
    match op {
        OpUnaria::Negacao => Ok(ResultadoInteiro::Logico(false)),
        OpUnaria::Negativo => if x == i64::MIN {
            Err(FalhaInteira::Estouro)
        } else {
            Ok(ResultadoInteiro::Inteiro(-x))
        },
        OpUnaria::NaoBit => Ok(ResultadoInteiro::Inteiro(!x)),
    }
}

/// As comparações entre inteiros: cada operador responde o que o seu nome diz
/// (`>` é estritamente maior, `>=` admite a igualdade), e elas se relacionam
/// como devem: trocar os lados troca `<` por `>`, cada operador e o seu
/// contrário (`>` e `<=`, `<` e `>=`, `==` e `!=`) dão respostas opostas, e
/// nenhum número é estritamente maior ou menor que ele mesmo.
pub proof fn lei_comparacoes_inteiras(x: i64, y: i64)
    ensures
        operacao_inteira(OpBinaria::Maior, x, y) == Ok::<ResultadoInteiro, FalhaInteira>(ResultadoInteiro::Logico(x > y)),
        operacao_inteira(OpBinaria::Menor, x, y) == Ok::<ResultadoInteiro, FalhaInteira>(ResultadoInteiro::Logico(x < y)),
        operacao_inteira(OpBinaria::MaiorIgual, x, y) == Ok::<ResultadoInteiro, FalhaInteira>(
            ResultadoInteiro::Logico(x >= y),
        ),
        operacao_inteira(OpBinaria::MenorIgual, x, y) == Ok::<ResultadoInteiro, FalhaInteira>(
            ResultadoInteiro::Logico(x <= y),
        ),
        operacao_inteira(OpBinaria::Igual, x, y) == Ok::<ResultadoInteiro, FalhaInteira>(ResultadoInteiro::Logico(x == y)),
        operacao_inteira(OpBinaria::Diferente, x, y) == Ok::<ResultadoInteiro, FalhaInteira>(
            ResultadoInteiro::Logico(x != y),
        ),
        operacao_inteira(OpBinaria::Maior, x, y) == operacao_inteira(OpBinaria::Menor, y, x),
        operacao_inteira(OpBinaria::MaiorIgual, x, y) == operacao_inteira(OpBinaria::MenorIgual, y, x),
        operacao_inteira(OpBinaria::Maior, x, y) == Ok::<ResultadoInteiro, FalhaInteira>(ResultadoInteiro::Logico(
            operacao_inteira(OpBinaria::MenorIgual, x, y) == Ok::<ResultadoInteiro, FalhaInteira>(
                ResultadoInteiro::Logico(false),
            ),
        )),
        operacao_inteira(OpBinaria::Menor, x, y) == Ok::<ResultadoInteiro, FalhaInteira>(ResultadoInteiro::Logico(
            operacao_inteira(OpBinaria::MaiorIgual, x, y) == Ok::<ResultadoInteiro, FalhaInteira>(
                ResultadoInteiro::Logico(false),
            ),
        )),
        operacao_inteira(OpBinaria::Maior, x, x) == Ok::<ResultadoInteiro, FalhaInteira>(ResultadoInteiro::Logico(false)),
        operacao_inteira(OpBinaria::Menor, x, x) == Ok::<ResultadoInteiro, FalhaInteira>(ResultadoInteiro::Logico(false)),
        operacao_inteira(OpBinaria::MaiorIgual, x, x) == Ok::<ResultadoInteiro, FalhaInteira>(ResultadoInteiro::Logico(true)),
        operacao_inteira(OpBinaria::MenorIgual, x, x) == Ok::<ResultadoInteiro, FalhaInteira>(ResultadoInteiro::Logico(true)),
{
}

/// A soma e a multiplicação de inteiros não dependem da ordem dos operandos,
/// e somar zero não muda o número.
pub proof fn lei_soma_produto_inteiros(x: i64, y: i64)
    ensures
        operacao_inteira(OpBinaria::Soma, x, y) == operacao_inteira(OpBinaria::Soma, y, x),
        operacao_inteira(OpBinaria::Multiplicacao, x, y) == operacao_inteira(OpBinaria::Multiplicacao, y, x),
        operacao_inteira(OpBinaria::Soma, x, 0) == Ok::<ResultadoInteiro, FalhaInteira>(ResultadoInteiro::Inteiro(x)),
        operacao_inteira(OpBinaria::Subtracao, x, x) == Ok::<ResultadoInteiro, FalhaInteira>(ResultadoInteiro::Inteiro(0)),
{
    assert(x * y == y * x) by (nonlinear_arith);
}

/// Os operadores de bits: `x & x` e `x | x` são o próprio `x`, `x ^ x` é
/// zero, `x | 0` e `x ^ 0` são `x`, `x & 0` é zero, e `&`, `|` e `^` não
/// dependem da ordem dos operandos; deslocar por 0 não muda o número, e
/// deslocamentos fora de 0..=63 falham.
pub proof fn lei_bits_inteiros(x: i64, y: i64)
    ensures
        operacao_inteira(OpBinaria::EBit, x, x) == Ok::<ResultadoInteiro, FalhaInteira>(ResultadoInteiro::Inteiro(x)),
        operacao_inteira(OpBinaria::OuBit, x, x) == Ok::<ResultadoInteiro, FalhaInteira>(ResultadoInteiro::Inteiro(x)),
        operacao_inteira(OpBinaria::XorBit, x, x) == Ok::<ResultadoInteiro, FalhaInteira>(ResultadoInteiro::Inteiro(0)),
        operacao_inteira(OpBinaria::OuBit, x, 0) == Ok::<ResultadoInteiro, FalhaInteira>(ResultadoInteiro::Inteiro(x)),
        operacao_inteira(OpBinaria::XorBit, x, 0) == Ok::<ResultadoInteiro, FalhaInteira>(ResultadoInteiro::Inteiro(x)),
        operacao_inteira(OpBinaria::EBit, x, 0) == Ok::<ResultadoInteiro, FalhaInteira>(ResultadoInteiro::Inteiro(0)),
        operacao_inteira(OpBinaria::EBit, x, y) == operacao_inteira(OpBinaria::EBit, y, x),
        operacao_inteira(OpBinaria::OuBit, x, y) == operacao_inteira(OpBinaria::OuBit, y, x),
        operacao_inteira(OpBinaria::XorBit, x, y) == operacao_inteira(OpBinaria::XorBit, y, x),
        operacao_inteira(OpBinaria::DeslocaEsq, x, 0) == Ok::<ResultadoInteiro, FalhaInteira>(ResultadoInteiro::Inteiro(x)),
        operacao_inteira(OpBinaria::DeslocaDir, x, 0) == Ok::<ResultadoInteiro, FalhaInteira>(ResultadoInteiro::Inteiro(x)),
        !(0 <= y < 64) ==> operacao_inteira(OpBinaria::DeslocaEsq, x, y) == Err::<ResultadoInteiro, FalhaInteira>(
            FalhaInteira::DeslocamentoInvalido,
        ),
        !(0 <= y < 64) ==> operacao_inteira(OpBinaria::DeslocaDir, x, y) == Err::<ResultadoInteiro, FalhaInteira>(
            FalhaInteira::DeslocamentoInvalido,
        ),
{
    assert(x & x == x) by (bit_vector);
    assert(x | x == x) by (bit_vector);
    assert(x ^ x == 0) by (bit_vector);
    assert(x | 0 == x) by (bit_vector);
    assert(x ^ 0 == x) by (bit_vector);
    assert(x & 0 == 0) by (bit_vector);
    assert(x & y == y & x) by (bit_vector);
    assert(x | y == y | x) by (bit_vector);
    assert(x ^ y == y ^ x) by (bit_vector);
    assert(x << 0u32 == x) by (bit_vector);
    assert(x >> 0u32 == x) by (bit_vector);
}

/// Os operadores unários: o negativo de `x` somado a `x` dá zero (e só o
/// menor i64 estoura), `nao` de um número é sempre falso, e `~` aplicado
/// duas vezes devolve o número.
pub proof fn lei_unarios_inteiros(x: i64)
    ensures
        x != i64::MIN ==> (operacao_unaria_inteira(OpUnaria::Negativo, x) matches Ok(ResultadoInteiro::Inteiro(v))
            && v + x == 0),
        operacao_unaria_inteira(OpUnaria::Negativo, i64::MIN) == Err::<ResultadoInteiro, FalhaInteira>(
            FalhaInteira::Estouro,
        ),
        operacao_unaria_inteira(OpUnaria::Negacao, x) == Ok::<ResultadoInteiro, FalhaInteira>(ResultadoInteiro::Logico(false)),
        operacao_unaria_inteira(OpUnaria::NaoBit, x) matches Ok(ResultadoInteiro::Inteiro(v)) && !v == x,
{
    assert(!(!x) == x) by (bit_vector);
}

} // verus!
