use kaju::ast::{OpBinaria, OpUnaria};
use kaju::inteiros::{operar_inteiro, operar_inteiros, FalhaInteira, ResultadoInteiro};

fn inteiro(op: OpBinaria, x: i64, y: i64) -> Result<ResultadoInteiro, FalhaInteira> {
    operar_inteiros(op, x, y)
}

#[test]
fn soma_subtracao_multiplicacao_exatas() {
    assert_eq!(inteiro(OpBinaria::Soma, 2, 3), Ok(ResultadoInteiro::Inteiro(5)));
    assert_eq!(inteiro(OpBinaria::Subtracao, 2, 3), Ok(ResultadoInteiro::Inteiro(-1)));
    assert_eq!(inteiro(OpBinaria::Multiplicacao, -4, 3), Ok(ResultadoInteiro::Inteiro(-12)));
    assert_eq!(inteiro(OpBinaria::Soma, i64::MAX, 0), Ok(ResultadoInteiro::Inteiro(i64::MAX)));
}

#[test]
fn estouro_de_inteiro() {
    assert_eq!(inteiro(OpBinaria::Soma, i64::MAX, 1), Err(FalhaInteira::Estouro));
    assert_eq!(inteiro(OpBinaria::Subtracao, i64::MIN, 1), Err(FalhaInteira::Estouro));
    assert_eq!(inteiro(OpBinaria::Multiplicacao, 1 << 32, 1 << 32), Err(FalhaInteira::Estouro));
    assert_eq!(operar_inteiro(OpUnaria::Negativo, i64::MIN), Err(FalhaInteira::Estouro));
    assert_eq!(FalhaInteira::Estouro.codigo(), "K222");
}

#[test]
fn divisao_e_resto() {
    assert_eq!(inteiro(OpBinaria::Divisao, 10, 4), Ok(ResultadoInteiro::Quociente(10, 4)));
    assert_eq!(inteiro(OpBinaria::Divisao, 1, 0), Err(FalhaInteira::DivisaoPorZero));
    assert_eq!(inteiro(OpBinaria::Resto, 1, 0), Err(FalhaInteira::DivisaoPorZero));
    assert_eq!(FalhaInteira::DivisaoPorZero.codigo(), "K020");
    assert_eq!(inteiro(OpBinaria::Resto, 7, 3), Ok(ResultadoInteiro::Inteiro(1)));
    assert_eq!(inteiro(OpBinaria::Resto, -7, 3), Ok(ResultadoInteiro::Inteiro(-1)));
    assert_eq!(inteiro(OpBinaria::Resto, 7, -3), Ok(ResultadoInteiro::Inteiro(1)));
    assert_eq!(inteiro(OpBinaria::Resto, -7, -3), Ok(ResultadoInteiro::Inteiro(-1)));
    assert_eq!(inteiro(OpBinaria::Resto, i64::MIN, -1), Ok(ResultadoInteiro::Inteiro(0)));
}

#[test]
fn comparacoes_entre_inteiros() {
    assert_eq!(inteiro(OpBinaria::Menor, 1, 2), Ok(ResultadoInteiro::Logico(true)));
    assert_eq!(inteiro(OpBinaria::Maior, 1, 2), Ok(ResultadoInteiro::Logico(false)));
    assert_eq!(inteiro(OpBinaria::MenorIgual, 2, 2), Ok(ResultadoInteiro::Logico(true)));
    assert_eq!(inteiro(OpBinaria::MaiorIgual, 1, 2), Ok(ResultadoInteiro::Logico(false)));
    assert_eq!(inteiro(OpBinaria::Igual, 3, 3), Ok(ResultadoInteiro::Logico(true)));
    assert_eq!(inteiro(OpBinaria::Diferente, 3, 3), Ok(ResultadoInteiro::Logico(false)));
}

#[test]
fn operadores_de_bits() {
    assert_eq!(inteiro(OpBinaria::EBit, 12, 10), Ok(ResultadoInteiro::Inteiro(8)));
    assert_eq!(inteiro(OpBinaria::OuBit, 12, 10), Ok(ResultadoInteiro::Inteiro(14)));
    assert_eq!(inteiro(OpBinaria::XorBit, 12, 10), Ok(ResultadoInteiro::Inteiro(6)));
    assert_eq!(inteiro(OpBinaria::DeslocaEsq, 1, 10), Ok(ResultadoInteiro::Inteiro(1024)));
    assert_eq!(inteiro(OpBinaria::DeslocaDir, -16, 2), Ok(ResultadoInteiro::Inteiro(-4)));
    assert_eq!(inteiro(OpBinaria::DeslocaEsq, 1, 64), Err(FalhaInteira::DeslocamentoInvalido));
    assert_eq!(inteiro(OpBinaria::DeslocaDir, 1, -1), Err(FalhaInteira::DeslocamentoInvalido));
    assert_eq!(FalhaInteira::DeslocamentoInvalido.codigo(), "K012");
    assert_eq!(operar_inteiro(OpUnaria::NaoBit, 0), Ok(ResultadoInteiro::Inteiro(-1)));
}

#[test]
fn unarios_sobre_inteiros() {
    assert_eq!(operar_inteiro(OpUnaria::Negativo, 5), Ok(ResultadoInteiro::Inteiro(-5)));
    assert_eq!(operar_inteiro(OpUnaria::Negacao, 0), Ok(ResultadoInteiro::Logico(false)));
}
